mod cycletime;
mod errstate;
mod systime;

pub use self::cycletime::{spec_byte_to_time, CycleTime, Time, TimeSpan};
pub use self::errstate::{spec_errstate_text, ErrState};
pub use self::systime::{byte_to_dec, dec_to_byte, SysTime};
