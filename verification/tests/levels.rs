use dist_notifications::level::NotificationLevel;
use dist_notifications::notifications::Notification;
use dist_notifications::triple::TargetTriple;
use dist_notifications::utils::Error;
use dist_notifications::utils::UtilsNotification;
use std::cmp::Ordering;

const LEVELS: [NotificationLevel; 4] = [
    NotificationLevel::Verbose,
    NotificationLevel::Info,
    NotificationLevel::Warn,
    NotificationLevel::Error,
];

#[test]
fn verbose_notifications() {
    assert_eq!(Notification::ChecksumValid("file").level(), NotificationLevel::Verbose);
    assert_eq!(Notification::FileAlreadyDownloaded.level(), NotificationLevel::Verbose);
    assert_eq!(Notification::DownloadingLegacyManifest.level(), NotificationLevel::Verbose);
}

#[test]
fn info_notifications() {
    let host = TargetTriple::new("x86_64-unknown-linux-gnu");
    let target = TargetTriple::new("wasm32-unknown-unknown");
    let info = [
        Notification::SignatureValid("file"),
        Notification::DownloadingComponent("cargo", &host, None),
        Notification::DownloadingComponent("cargo", &host, Some(&target)),
        Notification::InstallingComponent("cargo", &host, None),
        Notification::InstallingComponent("cargo", &host, Some(&target)),
        Notification::RemovingComponent("cargo", &host, None),
        Notification::RemovingComponent("cargo", &host, Some(&target)),
        Notification::RemovingOldComponent("cargo", &host, None),
        Notification::RemovingOldComponent("cargo", &host, Some(&target)),
        Notification::ManifestChecksumFailedHack,
        Notification::RollingBack,
        Notification::DownloadingManifest("stable"),
        Notification::DownloadedManifest("2024-01-01", None),
        Notification::DownloadedManifest("2024-01-01", Some("1.75.0")),
    ];
    for n in info.iter() {
        assert_eq!(n.level(), NotificationLevel::Info, "{:?}", n);
    }
}

#[test]
fn warn_notifications() {
    let target = TargetTriple::new("wasm32-unknown-unknown");
    let warn = [
        Notification::ExtensionNotInstalled("rls"),
        Notification::MissingInstalledComponent("rls"),
        Notification::CachedFileChecksumFailed,
        Notification::ComponentUnavailable("rls", None),
        Notification::ComponentUnavailable("rls", Some(&target)),
    ];
    for n in warn.iter() {
        assert_eq!(n.level(), NotificationLevel::Warn, "{:?}", n);
    }
}

#[test]
fn error_notification() {
    let e = Error::new("could not remove the temporary directory");
    assert_eq!(Notification::NonFatalError(&e).level(), NotificationLevel::Error);
}

#[test]
fn level_does_not_depend_on_the_payload() {
    assert_eq!(Notification::ChecksumValid("").level(), Notification::ChecksumValid("x").level());
    let e1 = Error::new("");
    let e2 = Error::new("warning: this only looks harmless");
    assert_eq!(Notification::NonFatalError(&e1).level(), Notification::NonFatalError(&e2).level());
    assert_eq!(
        Notification::DownloadedManifest("a", None).level(),
        Notification::DownloadedManifest("b", Some("c")).level()
    );
}

#[test]
fn level_is_the_same_on_every_call() {
    let host = TargetTriple::new("x86_64-unknown-linux-gnu");
    let n = Notification::InstallingComponent("rustc", &host, Some(&host));
    let first = n.level();
    let second = n.level();
    assert_eq!(first, second);
    let same = Notification::InstallingComponent("rustc", &host, Some(&host));
    assert_eq!(same.level(), first);
    assert_eq!(same.render(), n.render());
}

#[test]
fn wrapped_notification_keeps_its_level() {
    for level in LEVELS.iter() {
        let inner = UtilsNotification::new(*level, "linking directory");
        assert_eq!(inner.level(), *level);
        assert_eq!(Notification::Utils(inner).level(), inner.level());
    }
}

#[test]
fn wrapped_notification_keeps_its_message() {
    for text in ["", "downloading file", "for 'x'", "caf\u{e9} \u{1f980}"].iter() {
        let inner = UtilsNotification::new(NotificationLevel::Verbose, text);
        assert_eq!(inner.render(), *text);
        assert_eq!(Notification::Utils(inner).render(), inner.render());
    }
}

#[test]
fn conversion_wraps_the_utils_notification() {
    let inner = UtilsNotification::new(NotificationLevel::Warn, "no canonical path");
    let n = Notification::from(inner);
    assert!(matches!(n, Notification::Utils(_)));
    assert_eq!(n.level(), NotificationLevel::Warn);
    assert_eq!(n.render(), "no canonical path");
    let m: Notification = inner.into();
    assert_eq!(m.level(), NotificationLevel::Warn);
    assert_eq!(m.render(), "no canonical path");
}

#[test]
fn levels_ascend() {
    assert!(NotificationLevel::Verbose < NotificationLevel::Info);
    assert!(NotificationLevel::Info < NotificationLevel::Warn);
    assert!(NotificationLevel::Warn < NotificationLevel::Error);
    assert!(NotificationLevel::Verbose < NotificationLevel::Error);
    assert!(!(NotificationLevel::Error < NotificationLevel::Warn));
    assert!(!(NotificationLevel::Info < NotificationLevel::Info));
    assert!(NotificationLevel::Info <= NotificationLevel::Info);
    assert!(NotificationLevel::Error >= NotificationLevel::Warn);
    assert!(NotificationLevel::Error > NotificationLevel::Verbose);
}

#[test]
fn level_ordinals() {
    assert_eq!(NotificationLevel::Verbose.ordinal(), 0);
    assert_eq!(NotificationLevel::Info.ordinal(), 1);
    assert_eq!(NotificationLevel::Warn.ordinal(), 2);
    assert_eq!(NotificationLevel::Error.ordinal(), 3);
}

#[test]
fn level_order_agrees_with_the_ordinals() {
    for a in LEVELS.iter() {
        for b in LEVELS.iter() {
            let expected = a.ordinal().cmp(&b.ordinal());
            assert_eq!(a.partial_cmp(b), Some(expected));
            assert_eq!(a.cmp(b), expected);
            assert_eq!(a < b, expected == Ordering::Less);
            assert_eq!(a == b, expected == Ordering::Equal);
            assert_eq!(a > b, expected == Ordering::Greater);
        }
    }
}

#[test]
fn level_order_is_transitive() {
    for a in LEVELS.iter() {
        for b in LEVELS.iter() {
            for c in LEVELS.iter() {
                if a < b && b < c {
                    assert!(a < c);
                }
            }
        }
    }
}

#[test]
fn levels_sort_from_verbose_to_error() {
    let mut levels = vec![
        NotificationLevel::Warn,
        NotificationLevel::Verbose,
        NotificationLevel::Error,
        NotificationLevel::Info,
        NotificationLevel::Verbose,
    ];
    levels.sort();
    assert_eq!(
        levels,
        vec![
            NotificationLevel::Verbose,
            NotificationLevel::Verbose,
            NotificationLevel::Info,
            NotificationLevel::Warn,
            NotificationLevel::Error,
        ]
    );
    assert_eq!(levels.iter().max(), Some(&NotificationLevel::Error));
    assert_eq!(levels.iter().min(), Some(&NotificationLevel::Verbose));
}

#[test]
fn threshold_filtering() {
    let host = TargetTriple::new("x86_64-unknown-linux-gnu");
    let e = Error::new("disk almost full");
    let all = [
        Notification::ChecksumValid("file"),
        Notification::RollingBack,
        Notification::CachedFileChecksumFailed,
        Notification::NonFatalError(&e),
        Notification::DownloadingComponent("cargo", &host, None),
        Notification::Utils(UtilsNotification::new(NotificationLevel::Warn, "retrying")),
    ];
    let shown = |threshold: NotificationLevel| -> Vec<String> {
        all.iter().filter(|n| n.level() >= threshold).map(|n| n.render()).collect()
    };
    assert_eq!(shown(NotificationLevel::Verbose).len(), 6);
    assert_eq!(
        shown(NotificationLevel::Info),
        vec![
            "rolling back changes",
            "bad checksum for cached download",
            "disk almost full",
            "downloading component 'cargo'",
            "retrying",
        ]
    );
    assert_eq!(
        shown(NotificationLevel::Warn),
        vec!["bad checksum for cached download", "disk almost full", "retrying"]
    );
    assert_eq!(shown(NotificationLevel::Error), vec!["disk almost full"]);
}

#[test]
fn level_is_copied_and_printed() {
    let level = NotificationLevel::Warn;
    let copy = level;
    assert_eq!(level, copy);
    assert_eq!(format!("{:?}", level), "Warn");
}
