use vstd::prelude::*;

verus! {

/// Milliseconds the acquisition worker sleeps between two ADC reads.
pub const SAMPLING_PERIOD_MS: u32 = 500;

/// Milliseconds the notification pump waits between two channel receipts.
pub const PUMP_PERIOD_MS: u32 = 400;

/// Number of samples the bounded channel can buffer before the producer
/// must wait for the consumer.
pub const CHANNEL_CAPACITY: usize = 20;

/// Fixed numeric passkey for the pairing flow (display-only I/O capability).
pub const PAIRING_PASSKEY: u32 = 2137;

/// UUID of the GATT service that carries both characteristics.
pub const SERVICE_UUID: u16 = 0xABCD;

/// UUID of the notify-only characteristic that streams serialized samples.
pub const NOTIFY_CHARACTERISTIC_UUID: u16 = 0x1234;

/// UUID of the encrypted, authorized write characteristic; its payload is
/// informational only and drives no lifecycle transition.
pub const CONTROL_CHARACTERISTIC_UUID: u16 = 0x1235;

} // verus!
