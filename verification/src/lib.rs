pub mod button;
pub mod channel;
pub mod clock;
pub mod led;
pub mod executor;
pub mod future;
pub mod heapless_specs;
pub mod time;
