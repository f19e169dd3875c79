use imap_receiver::permission::Permission;

#[test]
fn descriptions_are_stable() {
    assert_eq!(
        Permission::Impersonate.description(),
        "Allows acting on behalf of another user"
    );
    assert_eq!(Permission::MessageQueueList.description(), "View message queue");
    assert_eq!(
        Permission::SieveHaveSpace.description(),
        "Check available space for Sieve scripts"
    );
    assert_eq!(
        Permission::JmapQuotaGet.description(),
        "Retrieve quota information via JMAP"
    );
}
