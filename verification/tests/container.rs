use datafile::datafile::{mutate_then_read, write_back_then_read, DataFile, Error, FileRead};
use datafile::fs::format::toml::TomlFormat;
use datafile::fs::format::Error as FormatError;
use datafile::settings::Settings;

fn path() -> String {
    String::from("cfg.toml")
}

#[test]
fn read_parses_found_content() {
    let df = DataFile::<Settings, TomlFormat>::read(path(), FileRead::Found(
        String::from("retries = 4"),
    ))
    .unwrap();
    assert_eq!(*df.get_data(), Settings { retries: 4 });
}

#[test]
fn read_missing_is_io_not_found() {
    let r = DataFile::<Settings, TomlFormat>::read(path(), FileRead::Missing);
    assert!(matches!(
        r,
        Err(Error::Format(FormatError::Io { not_found: true, .. }))
    ));
}

#[test]
fn read_corrupt_is_decode_not_io() {
    let r = DataFile::<Settings, TomlFormat>::read(path(), FileRead::Found(
        String::from("garbage ["),
    ));
    assert!(matches!(r, Err(Error::Format(FormatError::Decode { .. }))));
}

#[test]
fn read_failed_access_is_io() {
    let r = DataFile::<Settings, TomlFormat>::read(path(), FileRead::Failed(
        String::from("permission denied"),
    ));
    match r {
        Err(Error::Format(FormatError::Io { not_found, message })) => {
            assert!(!not_found);
            assert_eq!(message, "permission denied");
        },
        _ => panic!("expected an access error"),
    }
}

#[test]
fn read_or_missing_uses_fallback() {
    let fallback = Settings { retries: 11 };
    let df = DataFile::<Settings, TomlFormat>::read_or(path(), FileRead::Missing, fallback)
        .unwrap();
    assert_eq!(*df.get_data(), fallback);
}

#[test]
fn read_or_found_ignores_fallback() {
    let fallback = Settings { retries: 11 };
    let df = DataFile::<Settings, TomlFormat>::read_or(
        path(),
        FileRead::Found(String::from("retries = 1")),
        fallback,
    )
    .unwrap();
    assert_eq!(*df.get_data(), Settings { retries: 1 });
}

#[test]
fn read_or_propagates_decode_errors() {
    let r = DataFile::<Settings, TomlFormat>::read_or(
        path(),
        FileRead::Found(String::from("retries = -3")),
        Settings { retries: 0 },
    );
    assert!(matches!(r, Err(Error::Format(FormatError::Decode { .. }))));
}

#[test]
fn read_or_else_is_lazy_when_found() {
    let df = DataFile::<Settings, TomlFormat>::read_or_else(
        path(),
        FileRead::Found(String::from("retries = 2")),
        || panic!("fallback must not be invoked when the file exists"),
    )
    .unwrap();
    assert_eq!(*df.get_data(), Settings { retries: 2 });
}

#[test]
fn read_or_else_computes_fallback_when_missing() {
    let df = DataFile::<Settings, TomlFormat>::read_or_else(path(), FileRead::Missing, || {
        Settings { retries: 23 }
    })
    .unwrap();
    assert_eq!(*df.get_data(), Settings { retries: 23 });
}

#[test]
fn read_or_default_missing_uses_zero_value() {
    let df = DataFile::<Settings, TomlFormat>::read_or_default(path(), FileRead::Missing)
        .unwrap();
    assert_eq!(*df.get_data(), Settings { retries: 0 });
}

#[test]
fn read_or_default_found_parses() {
    let df = DataFile::<Settings, TomlFormat>::read_or_default(
        path(),
        FileRead::Found(String::from("retries = 8")),
    )
    .unwrap();
    assert_eq!(*df.get_data(), Settings { retries: 8 });
}

#[test]
fn new_does_not_parse_anything() {
    let df = DataFile::<Settings, TomlFormat>::new(path(), Settings { retries: 6 }).unwrap();
    assert_eq!(*df.get_data(), Settings { retries: 6 });
}

#[test]
fn guard_exposes_value() {
    let df = DataFile::<Settings, TomlFormat>::new(path(), Settings { retries: 6 }).unwrap();
    let mut guard = df.get_mut_data();
    assert_eq!(*guard.get(), Settings { retries: 6 });
    guard.set(Settings { retries: 7 });
    assert_eq!(*guard.get(), Settings { retries: 7 });
}

#[test]
fn flush_without_mutation_reproduces_value() {
    let df = DataFile::<Settings, TomlFormat>::new(path(), Settings { retries: 5 }).unwrap();
    let guard = df.get_mut_data();
    let (df, flushed) = guard.flush();
    let content = flushed.unwrap();
    assert_eq!(content, "retries = 5\n");
    assert_eq!(*df.get_data(), Settings { retries: 5 });
    let reread =
        DataFile::<Settings, TomlFormat>::read(path(), FileRead::Found(content)).unwrap();
    assert_eq!(*reread.get_data(), Settings { retries: 5 });
}

#[test]
fn write_back_then_read_law() {
    let df = write_back_then_read::<Settings, TomlFormat>(path(), Settings { retries: 5 })
        .unwrap();
    assert_eq!(*df.get_data(), Settings { retries: 5 });
}

#[test]
fn mutation_persists_through_flush() {
    let df = mutate_then_read::<Settings, TomlFormat>(
        path(),
        Settings { retries: 3 },
        Settings { retries: 5 },
    )
    .unwrap();
    assert_eq!(*df.get_data(), Settings { retries: 5 });
}

#[test]
fn end_to_end_retries_update() {
    let df = DataFile::<Settings, TomlFormat>::new(path(), Settings { retries: 3 }).unwrap();
    let mut guard = df.get_mut_data();
    guard.set(Settings { retries: 5 });
    let (_df, flushed) = guard.flush();
    let content = flushed.unwrap();
    assert_eq!(content, "retries = 5\n");
    let reread =
        DataFile::<Settings, TomlFormat>::read(path(), FileRead::Found(content)).unwrap();
    assert_eq!(*reread.get_data(), Settings { retries: 5 });
}
