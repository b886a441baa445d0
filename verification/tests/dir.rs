use erudition::dir::{DataDir, DirError};

#[test]
fn data_dir_paths() {
    let dir = DataDir::from_path("/var/erudition".to_string(), false);
    assert_eq!(dir.as_path(), "/var/erudition");
    assert_eq!(dir.data(), "/var/erudition/data");
    assert_eq!(dir.data_temp(), "/var/erudition/data.temp");
    assert_eq!(dir.logs(), "/var/erudition/logs");
    let slash = DataDir::from_path("/var/e/".to_string(), false);
    assert_eq!(slash.data(), "/var/e/data");
    let empty = DataDir::from_path(String::new(), false);
    assert_eq!(empty.logs(), "logs");
}

#[test]
fn data_dir_resolution() {
    let given = DataDir::new(Some("/x".to_string()), Some("/home/u/.local/share".to_string()), false).unwrap();
    assert_eq!(given.as_path(), "/x");
    let default = DataDir::new(None, Some("/home/u/.local/share".to_string()), false).unwrap();
    assert_eq!(default.as_path(), "/home/u/.local/share/erudition");
    let err = DataDir::new(None, None, false).unwrap_err();
    assert_eq!(err, DirError::NoHome);
    assert_eq!(err.message(), "Your environment seems to be broken: HOME variable does not exist");
    let err = DataDir::new(None, None, true).unwrap_err();
    assert_eq!(err, DirError::NoRoamingAppData);
    assert_eq!(
        err.message(),
        "Your environment seems to be broken: FOLDERID_RoamingAppData variable does not exist"
    );
}

#[test]
fn data_paths_are_distinct() {
    for (base, windows) in [("", false), ("/", false), ("/a", false), ("rel/dir/", false), ("C:\\x", true), ("", true)] {
        let dir = DataDir::from_path(base.to_string(), false);
        assert_ne!(dir.data(), dir.data_temp());
        assert_ne!(dir.data(), dir.logs());
        assert_ne!(dir.data_temp(), dir.logs());
    }
}

#[test]
fn windows_paths() {
    let dir = DataDir::from_path("C:\\data\\app".to_string(), true);
    assert_eq!(dir.data(), "C:\\data\\app\\data");
    let slash = DataDir::from_path("C:/x/".to_string(), true);
    assert_eq!(slash.logs(), "C:/x/logs");
    let back = DataDir::from_path("C:\\x\\".to_string(), true);
    assert_eq!(back.logs(), "C:\\x\\logs");
    let default = DataDir::new(None, Some("C:\\Users\\u\\AppData\\Roaming".to_string()), true).unwrap();
    assert_eq!(default.as_path(), "C:\\Users\\u\\AppData\\Roaming\\erudition");
    let unix_backslash = DataDir::from_path("a\\".to_string(), false);
    assert_eq!(unix_backslash.data(), "a\\/data");
}

#[test]
fn windows_drive_prefix_stays_drive_relative() {
    assert_eq!(DataDir::from_path("C:".to_string(), true).data(), "C:data");
    assert_eq!(DataDir::from_path("c:".to_string(), true).logs(), "c:logs");
    assert_eq!(DataDir::from_path("C:".to_string(), false).data(), "C:/data");
    assert_eq!(DataDir::from_path("1:".to_string(), true).data(), "1:\\data");
}
