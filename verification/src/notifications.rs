//! The notifications of the distribution layer, their severities and their
//! messages.

use crate::level::NotificationLevel;
use crate::triple::TargetTriple;
use crate::utils::Error;
use crate::utils::UtilsNotification;
use vstd::prelude::*;

verus! {

/// Something that happened while a component or a channel manifest was
/// downloaded, installed, removed or verified.
///
/// A notification borrows what it tells of from the operation that raises
/// it. The operations on a component carry the component's name, the host's
/// triple and, where one was given, the target's triple.
#[derive(Debug)]
pub enum Notification<'a> {
    /// A notification of the utility layer, carried through unchanged.
    Utils(UtilsNotification<'a>),
    /// A checksum was found to be right. The text says whose; the message
    /// leaves it out.
    ChecksumValid(&'a str),
    /// A signature was found to be right. The text says whose; the message
    /// leaves it out.
    SignatureValid(&'a str),
    /// A file of an earlier download is used again.
    FileAlreadyDownloaded,
    /// A file of an earlier download has the wrong checksum.
    CachedFileChecksumFailed,
    /// The changes made so far are being undone.
    RollingBack,
    /// The named extension was not installed.
    ExtensionNotInstalled(&'a str),
    /// An error that did not stop the operation.
    NonFatalError(&'a Error),
    /// The named component was not found while it was uninstalled.
    MissingInstalledComponent(&'a str),
    /// A component is being downloaded.
    DownloadingComponent(&'a str, &'a TargetTriple, Option<&'a TargetTriple>),
    /// A component is being installed.
    InstallingComponent(&'a str, &'a TargetTriple, Option<&'a TargetTriple>),
    /// A component is being removed.
    RemovingComponent(&'a str, &'a TargetTriple, Option<&'a TargetTriple>),
    /// The previous version of a component is being removed.
    RemovingOldComponent(&'a str, &'a TargetTriple, Option<&'a TargetTriple>),
    /// The manifest of the named channel is being downloaded.
    DownloadingManifest(&'a str),
    /// A manifest was downloaded: its date and, where it names one, its
    /// version.
    DownloadedManifest(&'a str, Option<&'a str>),
    /// No manifest was found, and the legacy manifest is tried.
    DownloadingLegacyManifest,
    /// The manifest's checksum does not match: the update is not there yet.
    ManifestChecksumFailedHack,
    /// A component is no longer there: its name and, where one was asked
    /// for, the target.
    ComponentUnavailable(&'a str, Option<&'a TargetTriple>),
}

/// Whether an operation on a component is for another platform than the host:
/// a target is given, and it is not the host itself.
pub open spec fn is_cross_target(host: Seq<char>, target: Option<Seq<char>>) -> bool {
    target matches Some(t) && t != host
}

/// The message of an operation on a component, where `verb` says what is
/// being done: `<verb> component '<name>'`, followed by ` for '<target>'`
/// when the operation is for another platform than the host.
pub open spec fn component_message(
    verb: Seq<char>,
    name: Seq<char>,
    host: Seq<char>,
    target: Option<Seq<char>>,
) -> Seq<char> {
    if is_cross_target(host, target) {
        verb + " component '"@ + name + "'"@ + " for '"@ + target->0 + "'"@
    } else {
        verb + " component '"@ + name + "'"@
    }
}

/// The message that says when the newest manifest is from and which version
/// it names.
pub open spec fn manifest_message(date: Seq<char>, version: Option<Seq<char>>) -> Seq<char> {
    match version {
        Some(v) => "latest update on "@ + date + ", rust version "@ + v,
        None => "latest update on "@ + date + ", no rust version"@,
    }
}

/// The message that says that a component is gone, from the given target
/// where one was asked for.
pub open spec fn unavailable_message(name: Seq<char>, target: Option<Seq<char>>) -> Seq<char> {
    match target {
        Some(t) => "component '"@ + name + "' is not available anymore on target '"@ + t + "'"@,
        None => "component '"@ + name + "' is not available anymore"@,
    }
}

/// The text of an optional triple.
pub open spec fn triple_text(triple: Option<&TargetTriple>) -> Option<Seq<char>> {
    match triple {
        Some(t) => Some(t@),
        None => None,
    }
}

/// The text of an optional string.
pub open spec fn str_text(s: Option<&str>) -> Option<Seq<char>> {
    match s {
        Some(s) => Some(s@),
        None => None,
    }
}

/// Writes the message of an operation on a component.
fn render_component(
    verb: &str,
    name: &str,
    host: &TargetTriple,
    target: Option<&TargetTriple>,
) -> (text: String)
    ensures
        text@ == component_message(verb@, name@, host@, triple_text(target)),
{
    let mut text = String::from_str(verb);
    text.append(" component '");
    text.append(name);
    text.append("'");
    match target {
        Some(t) => {
            if *t != *host {
                text.append(" for '");
                text.append(t.as_str());
                text.append("'");
            }
        },
        None => {},
    }
    text
}

impl<'a> From<UtilsNotification<'a>> for Notification<'a> {
    /// Carries a notification of the utility layer through this one.
    fn from(n: UtilsNotification<'a>) -> (wrapped: Notification<'a>) {
        Notification::Utils(n)
    }
}

impl<'a> vstd::std_specs::convert::FromSpecImpl<UtilsNotification<'a>> for Notification<'a> {
    open spec fn obeys_from_spec() -> bool {
        true
    }

    open spec fn from_spec(n: UtilsNotification<'a>) -> Notification<'a> {
        Notification::Utils(n)
    }
}

impl<'a> Notification<'a> {
    /// Whether two notifications are of the same kind, whatever they carry.
    pub open spec fn same_kind(&self, other: &Notification) -> bool {
        ||| *self is Utils && *other is Utils
        ||| *self is ChecksumValid && *other is ChecksumValid
        ||| *self is SignatureValid && *other is SignatureValid
        ||| *self is FileAlreadyDownloaded && *other is FileAlreadyDownloaded
        ||| *self is CachedFileChecksumFailed && *other is CachedFileChecksumFailed
        ||| *self is RollingBack && *other is RollingBack
        ||| *self is ExtensionNotInstalled && *other is ExtensionNotInstalled
        ||| *self is NonFatalError && *other is NonFatalError
        ||| *self is MissingInstalledComponent && *other is MissingInstalledComponent
        ||| *self is DownloadingComponent && *other is DownloadingComponent
        ||| *self is InstallingComponent && *other is InstallingComponent
        ||| *self is RemovingComponent && *other is RemovingComponent
        ||| *self is RemovingOldComponent && *other is RemovingOldComponent
        ||| *self is DownloadingManifest && *other is DownloadingManifest
        ||| *self is DownloadedManifest && *other is DownloadedManifest
        ||| *self is DownloadingLegacyManifest && *other is DownloadingLegacyManifest
        ||| *self is ManifestChecksumFailedHack && *other is ManifestChecksumFailedHack
        ||| *self is ComponentUnavailable && *other is ComponentUnavailable
    }

    /// The severity of each notification. It depends on the kind of the
    /// notification alone, except for one of the utility layer, which keeps
    /// the severity it came with.
    pub open spec fn severity(&self) -> NotificationLevel {
        match *self {
            Notification::Utils(n) => n.severity(),
            Notification::ChecksumValid(_)
            | Notification::FileAlreadyDownloaded
            | Notification::DownloadingLegacyManifest => NotificationLevel::Verbose,
            Notification::SignatureValid(_)
            | Notification::DownloadingComponent(_, _, _)
            | Notification::InstallingComponent(_, _, _)
            | Notification::RemovingComponent(_, _, _)
            | Notification::RemovingOldComponent(_, _, _)
            | Notification::ManifestChecksumFailedHack
            | Notification::RollingBack
            | Notification::DownloadingManifest(_)
            | Notification::DownloadedManifest(_, _) => NotificationLevel::Info,
            Notification::ExtensionNotInstalled(_)
            | Notification::MissingInstalledComponent(_)
            | Notification::CachedFileChecksumFailed
            | Notification::ComponentUnavailable(_, _) => NotificationLevel::Warn,
            Notification::NonFatalError(_) => NotificationLevel::Error,
        }
    }

    /// The message of each notification.
    pub open spec fn message(&self) -> Seq<char> {
        match *self {
            Notification::Utils(n) => n.message(),
            Notification::ChecksumValid(_) => "checksum passed"@,
            Notification::SignatureValid(_) => "signature valid"@,
            Notification::FileAlreadyDownloaded => "reusing previously downloaded file"@,
            Notification::CachedFileChecksumFailed => "bad checksum for cached download"@,
            Notification::RollingBack => "rolling back changes"@,
            Notification::ExtensionNotInstalled(c) => "extension '"@ + c@ + "' was not installed"@,
            Notification::NonFatalError(e) => e.message(),
            Notification::MissingInstalledComponent(c) => "during uninstall component "@ + c@
                + " was not found"@,
            Notification::DownloadingComponent(c, h, t) => component_message(
                "downloading"@,
                c@,
                h@,
                triple_text(t),
            ),
            Notification::InstallingComponent(c, h, t) => component_message(
                "installing"@,
                c@,
                h@,
                triple_text(t),
            ),
            Notification::RemovingComponent(c, h, t) => component_message(
                "removing"@,
                c@,
                h@,
                triple_text(t),
            ),
            Notification::RemovingOldComponent(c, h, t) => component_message(
                "removing previous version of"@,
                c@,
                h@,
                triple_text(t),
            ),
            Notification::DownloadingManifest(channel) => "syncing channel updates for '"@
                + channel@ + "'"@,
            Notification::DownloadedManifest(date, version) => manifest_message(
                date@,
                str_text(version),
            ),
            Notification::DownloadingLegacyManifest => "manifest not found. trying legacy manifest"@,
            Notification::ManifestChecksumFailedHack =>
                "update not yet available, sorry! try again later"@,
            Notification::ComponentUnavailable(pkg, toolchain) => unavailable_message(
                pkg@,
                triple_text(toolchain),
            ),
        }
    }

    /// How prominently the notification should be shown.
    pub fn level(&self) -> (level: NotificationLevel)
        ensures
            level == self.severity(),
    {
        match *self {
            Notification::Utils(ref n) => n.level(),
            Notification::ChecksumValid(_)
            | Notification::FileAlreadyDownloaded
            | Notification::DownloadingLegacyManifest => NotificationLevel::Verbose,
            Notification::SignatureValid(_)
            | Notification::DownloadingComponent(_, _, _)
            | Notification::InstallingComponent(_, _, _)
            | Notification::RemovingComponent(_, _, _)
            | Notification::RemovingOldComponent(_, _, _)
            | Notification::ManifestChecksumFailedHack
            | Notification::RollingBack
            | Notification::DownloadingManifest(_)
            | Notification::DownloadedManifest(_, _) => NotificationLevel::Info,
            Notification::ExtensionNotInstalled(_)
            | Notification::MissingInstalledComponent(_)
            | Notification::CachedFileChecksumFailed
            | Notification::ComponentUnavailable(_, _) => NotificationLevel::Warn,
            Notification::NonFatalError(_) => NotificationLevel::Error,
        }
    }

    /// The message that the notification is shown with.
    pub fn render(&self) -> (text: String)
        ensures
            text@ == self.message(),
    {
        match *self {
            Notification::Utils(ref n) => n.render(),
            Notification::ChecksumValid(_) => String::from_str("checksum passed"),
            Notification::SignatureValid(_) => String::from_str("signature valid"),
            Notification::FileAlreadyDownloaded => String::from_str(
                "reusing previously downloaded file",
            ),
            Notification::CachedFileChecksumFailed => String::from_str(
                "bad checksum for cached download",
            ),
            Notification::RollingBack => String::from_str("rolling back changes"),
            Notification::ExtensionNotInstalled(c) => {
                let mut text = String::from_str("extension '");
                text.append(c);
                text.append("' was not installed");
                text
            },
            Notification::NonFatalError(e) => e.render(),
            Notification::MissingInstalledComponent(c) => {
                let mut text = String::from_str("during uninstall component ");
                text.append(c);
                text.append(" was not found");
                text
            },
            Notification::DownloadingComponent(c, h, t) => render_component("downloading", c, h, t),
            Notification::InstallingComponent(c, h, t) => render_component("installing", c, h, t),
            Notification::RemovingComponent(c, h, t) => render_component("removing", c, h, t),
            Notification::RemovingOldComponent(c, h, t) => render_component(
                "removing previous version of",
                c,
                h,
                t,
            ),
            Notification::DownloadingManifest(channel) => {
                let mut text = String::from_str("syncing channel updates for '");
                text.append(channel);
                text.append("'");
                text
            },
            Notification::DownloadedManifest(date, Some(version)) => {
                let mut text = String::from_str("latest update on ");
                text.append(date);
                text.append(", rust version ");
                text.append(version);
                text
            },
            Notification::DownloadedManifest(date, None) => {
                let mut text = String::from_str("latest update on ");
                text.append(date);
                text.append(", no rust version");
                text
            },
            Notification::DownloadingLegacyManifest => String::from_str(
                "manifest not found. trying legacy manifest",
            ),
            Notification::ManifestChecksumFailedHack => String::from_str(
                "update not yet available, sorry! try again later",
            ),
            Notification::ComponentUnavailable(pkg, toolchain) => {
                let mut text = String::from_str("component '");
                text.append(pkg);
                if let Some(tc) = toolchain {
                    text.append("' is not available anymore on target '");
                    text.append(tc.as_str());
                    text.append("'");
                } else {
                    text.append("' is not available anymore");
                }
                text
            },
        }
    }
}

} // verus!
