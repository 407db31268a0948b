//! What a peripheral is told once, at startup, and what it registers with the
//! radio on the strength of it.

use vstd::prelude::*;

verus! {

/// The shortest advertising interval, in milliseconds.
pub const MIN_ADVERTISING_INTERVAL_MS: u64 = 100;

/// The longest advertising interval, in milliseconds.
pub const MAX_ADVERTISING_INTERVAL_MS: u64 = 1000;

/// The service to offer: the 128-bit identifiers of the service and of its one
/// characteristic, and the name to advertise under. The two identifiers are
/// independent of each other.
#[derive(Clone, Debug, PartialEq, Eq)]
pub struct ServiceDescriptor {
    pub service_uuid: u128,
    pub characteristic_uuid: u128,
    pub display_name: String,
}

/// The advertisement to register with the radio.
#[derive(Clone, Debug, PartialEq, Eq)]
pub struct Advertisement {
    /// The one service that is advertised.
    pub service_uuid: u128,
    /// Whether centrals that scan may discover the peripheral.
    pub discoverable: bool,
    /// The name shown to centrals.
    pub local_name: String,
    /// The bounds of the advertising interval, in milliseconds.
    pub min_interval_ms: u64,
    pub max_interval_ms: u64,
}

/// How the bytes of a characteristic travel between the radio stack and the
/// application.
#[derive(Clone, Copy, Debug, PartialEq, Eq, Structural)]
pub enum TransferMethod {
    /// The application streams the bytes itself.
    Stream,
    /// The radio stack calls the application once for each value.
    Call,
}

/// The one characteristic of the service.
#[derive(Clone, Copy, Debug, PartialEq, Eq, Structural)]
pub struct Characteristic {
    pub uuid: u128,
    /// Writes that the peripheral acknowledges.
    pub write: bool,
    /// Writes that it does not acknowledge.
    pub write_without_response: bool,
    pub write_method: TransferMethod,
    pub notify: bool,
    pub notify_method: TransferMethod,
}

/// The GATT application to register with the radio: one service holding one
/// characteristic.
#[derive(Clone, Copy, Debug, PartialEq, Eq, Structural)]
pub struct GattApplication {
    pub service_uuid: u128,
    pub primary: bool,
    pub characteristic: Characteristic,
}

/// The characteristic offered under `uuid`: open to both kinds of write and
/// to notification, with the application streaming the bytes both ways.
pub open spec fn streamed_characteristic(uuid: u128) -> Characteristic {
    Characteristic {
        uuid,
        write: true,
        write_without_response: true,
        write_method: TransferMethod::Stream,
        notify: true,
        notify_method: TransferMethod::Stream,
    }
}

impl ServiceDescriptor {
    /// A descriptor of the given identifiers and name.
    pub fn new(service_uuid: u128, characteristic_uuid: u128, display_name: &str) -> (descriptor:
        ServiceDescriptor)
        ensures
            descriptor.service_uuid == service_uuid,
            descriptor.characteristic_uuid == characteristic_uuid,
            descriptor.display_name@ == display_name@,
    {
        ServiceDescriptor {
            service_uuid,
            characteristic_uuid,
            display_name: display_name.to_owned(),
        }
    }

    /// The advertisement for this service: discoverable, under the display
    /// name, carrying the service identifier, with an advertising interval
    /// between 100 ms and 1000 ms.
    pub fn advertisement(&self) -> (advertisement: Advertisement)
        ensures
            advertisement.service_uuid == self.service_uuid,
            advertisement.discoverable,
            advertisement.local_name@ == self.display_name@,
            advertisement.min_interval_ms == MIN_ADVERTISING_INTERVAL_MS,
            advertisement.max_interval_ms == MAX_ADVERTISING_INTERVAL_MS,
    {
        Advertisement {
            service_uuid: self.service_uuid,
            discoverable: true,
            local_name: self.display_name.clone(),
            min_interval_ms: MIN_ADVERTISING_INTERVAL_MS,
            max_interval_ms: MAX_ADVERTISING_INTERVAL_MS,
        }
    }

    /// The GATT application for this service: one primary service with one
    /// characteristic, which takes writes with and without acknowledgment and
    /// notifies, the application streaming the bytes in both directions.
    pub fn gatt_application(&self) -> (application: GattApplication)
        ensures
            application == (GattApplication {
                service_uuid: self.service_uuid,
                primary: true,
                characteristic: streamed_characteristic(self.characteristic_uuid),
            }),
    {
        GattApplication {
            service_uuid: self.service_uuid,
            primary: true,
            characteristic: Characteristic {
                uuid: self.characteristic_uuid,
                write: true,
                write_without_response: true,
                write_method: TransferMethod::Stream,
                notify: true,
                notify_method: TransferMethod::Stream,
            },
        }
    }
}

} // verus!
