//! Audio control: the kinds of fader, meter, monitoring and balance that the
//! engine knows, and the handles on its faders and volume meters.

pub mod balance;
pub mod fader;
pub mod monitor;
pub mod volmeter;
