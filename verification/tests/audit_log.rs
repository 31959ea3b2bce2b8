use dnacalc::audit_log::AuditLog;

#[test]
fn audit_log_keeps_the_newest_records_with_consecutive_numbers() {
    let mut log: AuditLog<(&str, bool)> = AuditLog::new(4);
    log.record(("shell", true));
    log.record(("lens", false));
    assert_eq!(log.entries(), &[(0, ("shell", true)), (1, ("lens", false))][..]);
    for index in 2..14u64 {
        log.record(("host", index % 2 == 0));
    }
    let entries = log.entries();
    assert_eq!(entries.len(), 4);
    assert_eq!(entries.first().map(|record| record.0), Some(10));
    assert_eq!(entries.last().map(|record| record.0), Some(13));
    assert_eq!(entries[0].1, ("host", true));
}

#[test]
fn audit_log_of_capacity_zero_keeps_nothing() {
    let mut log: AuditLog<u8> = AuditLog::new(0);
    log.record(7);
    assert!(log.entries().is_empty());
}
