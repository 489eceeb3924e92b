use ems::channel::action_channel;
use ems::db::HandlerDatabase;
use ems::shutdown::{Shutdown, ShutdownState};

#[test]
fn test_shutdown_empty() {
    let database = HandlerDatabase::default();
    assert_eq!(Shutdown::from(&database).poll(), ShutdownState::Ready);
}

#[test]
fn test_shutdown() {
    let mut database = HandlerDatabase::default();

    database.add_handler(0, action_channel().0);
    assert_eq!(Shutdown::from(&database).poll(), ShutdownState::Pending);

    database.remove_handler(0);
    assert_eq!(Shutdown::from(&database).poll(), ShutdownState::Ready);
}

#[test]
fn shutdown_waits_for_every_handler() {
    let mut database = HandlerDatabase::default();
    database.add_handler(1, action_channel().0);
    database.add_handler(2, action_channel().0);
    database.add_handler(1, action_channel().0);
    database.remove_handler(3);
    assert_eq!(Shutdown::from(&database).poll(), ShutdownState::Pending);
    database.remove_handler(1);
    assert_eq!(Shutdown::from(&database).poll(), ShutdownState::Pending);
    database.remove_handler(2);
    assert_eq!(Shutdown::from(&database).poll(), ShutdownState::Ready);
}
