use validator_switch::probe::SyncStatus;
use validator_switch::status::{
    format_connection_status, format_disk_usage, format_process_status, format_swap_readiness,
    format_sync_status, format_system_load, format_verification_status, format_version,
};

#[test]
fn table_cells() {
    assert_eq!(format_connection_status(true), "✅ Connected");
    assert_eq!(format_connection_status(false), "❌ Failed");
    assert_eq!(format_process_status(Some(true)), "✅ Running");
    assert_eq!(format_process_status(None), "❓ Unknown");
    assert_eq!(format_disk_usage(Some(67)), "67%");
    assert_eq!(format_disk_usage(None), "N/A");
    assert_eq!(format_system_load(Some(520)), " 0.5");
    assert_eq!(format_system_load(Some(12_345)), " 12.3");
    assert_eq!(format_system_load(Some(1_950)), " 2.0");
    assert_eq!(format_system_load(None), " N/A");
    assert_eq!(format_sync_status(Some(SyncStatus::InSync)), " In Sync");
    assert_eq!(format_sync_status(Some(SyncStatus::Behind { slots: Some(5) })), " Behind (5 slots)");
    assert_eq!(format_sync_status(None), " N/A");
    assert_eq!(format_version(Some("Agave 2.1.5")), "Agave 2.1.5");
    assert_eq!(format_version(None), "N/A");
    assert_eq!(format_swap_readiness(Some(false)), "❌ Not Ready");
    assert_eq!(format_verification_status(None), "⏳ Checking");
    assert_eq!(format_verification_status(Some(true)), "✅ Verified");
}
