# pinetime_bsp

Board support for the PINE64 PineTime smartwatch (nRF52832), split in two:

- `src/` — the verified library: the backlight controller's line levels, the
  battery charge curve, the button's polling state machine, the display's
  clipping and framebuffer strip plans, the XT25F32B flash geometry and the
  vibration step sequences. Each public function carries a contract, and the
  laws that tie them together are proof functions beside them.
- `app/` — the hardware side: embassy-nrf pins, buses, ADC and timers, the
  ST7789 panel through lcd-async, the SPI flash through spi-memory-async and the
  CST816S touch controller. It performs what the library decides.
- `tests/` — concrete checks of the library's contracts and laws.
