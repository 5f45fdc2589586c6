//! Transmit-only driver logic for a synchronous serial audio (I2S) peripheral,
//! with the PCM sample source and the playback step that feeds it.

pub mod clock;
pub mod i2s;
pub mod playback;
pub mod regs;
pub mod wav;
