use pinetime_bsp::flash::XT25F32B;

#[test]
fn xt25f32b_geometry() {
    let chip = XT25F32B;
    assert_eq!(chip.page_write_size(), 256);
    assert_eq!(chip.sector_erase_size(), 4096);
    assert_eq!(chip.block_erase_size(), 65536);
    assert_eq!(chip.chip_size(), 4 * 1024 * 1024);
    assert_eq!(XT25F32B::SECTOR_SIZE % XT25F32B::PAGE_SIZE, 0);
    assert_eq!(XT25F32B::BLOCK_SIZE % XT25F32B::SECTOR_SIZE, 0);
    assert_eq!(XT25F32B::CHIP_SIZE % XT25F32B::BLOCK_SIZE, 0);
}
