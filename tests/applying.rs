use std::io::{Error, ErrorKind};
use wallpaper::{change_wallpaper, Applier, Entry, WallpaperError};

fn args_of(applier: &Applier) -> Vec<String> {
    let cmd = applier.next_command().unwrap();
    assert_eq!(cmd.program, "gsettings");
    cmd.args
}

#[test]
fn apply_runs_three_fixed_settings() {
    let mut applier = Applier::new("/wallpapers/a.png".to_string());
    let expected = [
        ("org.gnome.desktop.background", "picture-uri"),
        ("org.gnome.desktop.background", "picture-uri-dark"),
        ("org.gnome.desktop.screensaver", "picture-uri"),
    ];
    let mut runs = 0;
    while let Some(cmd) = applier.next_command() {
        let (schema, key) = expected[runs];
        assert_eq!(
            cmd.args,
            vec![
                "set".to_string(),
                schema.to_string(),
                key.to_string(),
                "file:///wallpapers/a.png".to_string()
            ]
        );
        assert!(applier.record(Ok(())).is_ok());
        runs += 1;
    }
    assert_eq!(runs, 3);
    assert!(applier.is_done());
    assert_eq!(applier.file_name(), "/wallpapers/a.png");
}

#[test]
fn uri_keeps_path_text_exactly() {
    let applier = Applier::new("/home/me/My Pictures/ünï.jpg".to_string());
    let args = args_of(&applier);
    assert_eq!(args[3], "file:///home/me/My Pictures/ünï.jpg");
}

#[test]
fn spawn_failure_is_command_error() {
    let mut applier = Applier::new("/d/a.png".to_string());
    let first = args_of(&applier);
    let r = applier.record(Err(Error::new(ErrorKind::NotFound, "gsettings missing")));
    match r {
        Err(WallpaperError::CommandError(e)) => assert_eq!(e.kind(), ErrorKind::NotFound),
        _ => panic!("expected a command error"),
    }
    assert!(!applier.is_done());
    assert_eq!(args_of(&applier), first);
}

#[test]
fn failure_after_first_setting_is_reported() {
    let mut applier = Applier::new("/d/a.png".to_string());
    assert!(applier.record(Ok(())).is_ok());
    assert_eq!(args_of(&applier)[2], "picture-uri-dark");
    let r = applier.record(Err(Error::new(ErrorKind::PermissionDenied, "denied")));
    assert!(matches!(r, Err(WallpaperError::CommandError(_))));
}

#[test]
fn change_wallpaper_starts_with_first_setting() {
    let entries = vec![Entry {
        name: b"only.png".to_vec(),
        path: Some("/d/only.png".to_string()),
    }];
    let applier = change_wallpaper(Some(entries)).unwrap();
    assert_eq!(applier.file_name(), "/d/only.png");
    assert!(!applier.is_done());
    assert_eq!(
        args_of(&applier),
        vec!["set", "org.gnome.desktop.background", "picture-uri", "file:///d/only.png"]
    );
}

#[test]
fn error_messages() {
    assert_eq!(WallpaperError::DirectoryNotFound.message(), "directory not found");
    assert_eq!(WallpaperError::ImageNotFound.message(), "unable to find a JPEG or PNG");
    assert_eq!(WallpaperError::InvalidPath.message(), "does not appear to be valid path");
    let m = WallpaperError::CommandError(Error::new(ErrorKind::Other, "boom")).message();
    assert_eq!(m, "error trying to set GNOME setting: boom");
}
