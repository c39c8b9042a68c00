use burncloud_database::{optional_row, single_row, Database, DatabaseConnection, DatabaseError};

#[test]
fn new_facade_is_not_initialized() {
    let db = Database::<u32>::new_with_path("/tmp/some.db");
    assert!(!db.is_initialized());
    assert_eq!(db.database_path(), "/tmp/some.db");
    assert!(matches!(db.connection(), Err(DatabaseError::NotInitialized)));
    assert!(matches!(db.create_tables(), Err(DatabaseError::NotInitialized)));
    assert!(db.detach().is_none());
}

#[test]
fn attach_initializes_and_hands_back_previous() {
    let mut db = Database::<u32>::new_with_path("a.db");
    assert!(db.attach(DatabaseConnection::from_pool(7)).is_none());
    assert!(db.is_initialized());
    assert_eq!(*db.connection().unwrap().pool(), 7);
    assert!(db.create_tables().is_ok());
    let previous = db.attach(DatabaseConnection::from_pool(9));
    assert_eq!(previous.unwrap().into_pool(), 7);
    assert_eq!(*db.connection().unwrap().pool(), 9);
    assert_eq!(db.database_path(), "a.db");
    assert_eq!(db.detach().unwrap().into_pool(), 9);
}

#[test]
fn memory_path_gives_memory_url() {
    let db = Database::<u32>::new_with_path(":memory:");
    assert_eq!(db.database_url(), "sqlite::memory:");
}

#[test]
fn file_path_gives_create_mode_url() {
    let db = Database::<u32>::new_with_path("/home/ada/.burncloud/data.db");
    assert_eq!(db.database_url(), "sqlite:///home/ada/.burncloud/data.db?mode=rwc");
}

#[test]
fn windows_path_url_uses_forward_slashes() {
    let db = Database::<u32>::new_with_path("C:\\Users\\ada\\AppData\\Local\\BurnCloud\\data.db");
    assert_eq!(
        db.database_url(),
        "sqlite://C:/Users/ada/AppData/Local/BurnCloud/data.db?mode=rwc"
    );
}

#[test]
fn single_row_takes_the_only_row() {
    assert_eq!(single_row(vec![5]).unwrap(), 5);
}

#[test]
fn single_row_fails_on_none() {
    let r = single_row(Vec::<i32>::new());
    assert!(matches!(r, Err(DatabaseError::Connection(sqlx::Error::RowNotFound))));
}

#[test]
fn single_row_fails_on_several() {
    let r = single_row(vec![1, 2]);
    assert!(matches!(r, Err(DatabaseError::Connection(_))));
}

#[test]
fn optional_row_is_empty_for_no_rows() {
    assert_eq!(optional_row(Vec::<i32>::new()), None);
}

#[test]
fn optional_row_takes_the_first() {
    assert_eq!(optional_row(vec![3, 4]), Some(3));
    assert_eq!(optional_row(vec![8]), Some(8));
}
