//! Logic of the CANShunt board firmware: the USB routing control protocol,
//! the persisted flash sections, the LED and button state machines, and the
//! ADC channel plan.
pub mod routing;
pub mod tasks;
pub mod flash;
pub mod led;
pub mod adc;
