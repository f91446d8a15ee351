pub mod emitter;
pub mod interval;
pub mod mixer;
pub mod oscillator;
pub mod sine;

pub use emitter::fill_frames;
pub use interval::Interval;
pub use mixer::Mixer;
pub use oscillator::{Oscillator, Phase};
pub use sine::{FrequencyError, SineWave};
