use presenter_remote::descriptor::{
    Characteristic, GattApplication, ServiceDescriptor, TransferMethod,
    MAX_ADVERTISING_INTERVAL_MS, MIN_ADVERTISING_INTERVAL_MS,
};

const UUID_X: u128 = 0x1234567812345678123456789abcdef0;
const UUID_Y: u128 = 0x0fedcba987654321876543218765432a;

#[test]
fn descriptor_keeps_what_it_was_given() {
    let descriptor = ServiceDescriptor::new(UUID_X, UUID_Y, "Presenter");
    assert_eq!(descriptor.service_uuid, UUID_X);
    assert_eq!(descriptor.characteristic_uuid, UUID_Y);
    assert_eq!(descriptor.display_name, "Presenter");
}

#[test]
fn advertisement_carries_service_name_and_interval() {
    let descriptor = ServiceDescriptor::new(UUID_X, UUID_Y, "Presenter");
    let advertisement = descriptor.advertisement();
    assert_eq!(advertisement.service_uuid, UUID_X);
    assert!(advertisement.discoverable);
    assert_eq!(advertisement.local_name, "Presenter");
    assert_eq!(advertisement.min_interval_ms, 100);
    assert_eq!(advertisement.max_interval_ms, 1000);
}

#[test]
fn advertising_interval_bounds() {
    assert_eq!(MIN_ADVERTISING_INTERVAL_MS, 100);
    assert_eq!(MAX_ADVERTISING_INTERVAL_MS, 1000);
}

#[test]
fn gatt_application_has_one_streamed_characteristic() {
    let descriptor = ServiceDescriptor::new(UUID_X, UUID_Y, "Presenter");
    assert_eq!(
        descriptor.gatt_application(),
        GattApplication {
            service_uuid: UUID_X,
            primary: true,
            characteristic: Characteristic {
                uuid: UUID_Y,
                write: true,
                write_without_response: true,
                write_method: TransferMethod::Stream,
                notify: true,
                notify_method: TransferMethod::Stream,
            },
        }
    );
}

#[test]
fn identifiers_may_coincide() {
    let descriptor = ServiceDescriptor::new(UUID_X, UUID_X, "Presenter Remote");
    let application = descriptor.gatt_application();
    assert_eq!(application.service_uuid, UUID_X);
    assert_eq!(application.characteristic.uuid, UUID_X);
}
