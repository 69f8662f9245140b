//! Telling the desktop environment from the signals of the process
//! environment, and the one command of each environment that has one.

use vstd::prelude::*;
use crate::command::{line, CommandLine, CommandLineView};
use crate::utils::str_eq;

verus! {

/// The family of the running desktop or compositor.
#[derive(Clone, Copy, Debug, PartialEq, Eq)]
pub enum DesktopClass {
    /// GNOME and the desktops that share its settings.
    GnomeFamily,
    /// KDE Plasma.
    Kde,
    /// Xfce.
    Xfce,
    /// A Wayland compositor without a wallpaper API of its own, by name.
    WaylandLayerCompositor(&'static str),
    /// Anything else.
    Unknown,
}

/// The class that the signals stand for. A desktop identifier decides alone:
/// the names of a known desktop give its class, `Hyprland` names a layer
/// compositor, any other name is unknown. Without an identifier, the
/// compositor's instance signal tells a layer compositor.
pub open spec fn class_of(desktop: Option<Seq<char>>, instance_signal: bool) -> DesktopClass {
    match desktop {
        Some(name) => if name == "GNOME"@ || name == "Unity"@ || name == "GNOME-Classic"@ {
            DesktopClass::GnomeFamily
        } else if name == "KDE"@ {
            DesktopClass::Kde
        } else if name == "XFCE"@ {
            DesktopClass::Xfce
        } else if name == "Hyprland"@ {
            DesktopClass::WaylandLayerCompositor("Hyprland")
        } else {
            DesktopClass::Unknown
        },
        None => if instance_signal {
            DesktopClass::WaylandLayerCompositor("Hyprland")
        } else {
            DesktopClass::Unknown
        },
    }
}

/// The contracts' view of an optional string slice.
pub open spec fn text_of(text: Option<&str>) -> Option<Seq<char>> {
    match text {
        Some(text) => Some(text@),
        None => None,
    }
}

/// Classifies the running desktop from the desktop identifier, where the
/// environment holds one, and from the presence of the compositor's
/// instance signal.
pub fn classify(desktop: Option<&str>, instance_signal: bool) -> (class: DesktopClass)
    ensures
        class == class_of(text_of(desktop), instance_signal),
{
    match desktop {
        Some(name) => {
            if str_eq(name, "GNOME") || str_eq(name, "Unity") || str_eq(name, "GNOME-Classic") {
                DesktopClass::GnomeFamily
            } else if str_eq(name, "KDE") {
                DesktopClass::Kde
            } else if str_eq(name, "XFCE") {
                DesktopClass::Xfce
            } else if str_eq(name, "Hyprland") {
                DesktopClass::WaylandLayerCompositor("Hyprland")
            } else {
                DesktopClass::Unknown
            }
        },
        None => {
            if instance_signal {
                DesktopClass::WaylandLayerCompositor("Hyprland")
            } else {
                DesktopClass::Unknown
            }
        },
    }
}

/// The script that sets the image on every desktop of a Plasma shell, up to
/// the image's path.
pub open spec fn plasma_script_head() -> Seq<char> {
    "var allDesktops = desktops();
                for (i=0;i<allDesktops.length;i++) {
                    d = allDesktops[i];
                    d.wallpaperPlugin = 'org.kde.image';
                    d.currentConfigGroup = Array('Wallpaper', 'org.kde.image', 'General');
                    d.writeConfig('Image', 'file://"@
}

/// The command with which a desktop environment sets its wallpaper, where it
/// has one.
pub open spec fn direct_command_of(class: DesktopClass, image_path: Seq<char>) -> Option<
    CommandLineView,
> {
    match class {
        DesktopClass::GnomeFamily => Some(
            line(
                "gsettings"@,
                seq![
                    "set"@,
                    "org.gnome.desktop.background"@,
                    "picture-uri"@,
                    "file://"@ + image_path,
                ],
            ),
        ),
        DesktopClass::Kde => Some(
            line(
                "qdbus"@,
                seq![
                    "org.kde.plasmashell"@,
                    "/PlasmaShell"@,
                    "org.kde.PlasmaShell.evaluateScript"@,
                    plasma_script_head() + image_path + "')"@,
                ],
            ),
        ),
        DesktopClass::Xfce => Some(
            line(
                "xfconf-query"@,
                seq![
                    "-c"@,
                    "xfce4-desktop"@,
                    "-p"@,
                    "/backdrop/screen0/monitor0/workspace0/last-image"@,
                    "-s"@,
                    image_path,
                ],
            ),
        ),
        _ => None,
    }
}

/// Builds the command with which a desktop environment sets its wallpaper.
/// There is none for a layer compositor and none for an unknown desktop.
pub fn direct_command(class: DesktopClass, image_path: &str) -> (command: Option<CommandLine>)
    ensures
        command is Some <==> direct_command_of(class, image_path@) is Some,
        command matches Some(built) ==> Some(built@) == direct_command_of(class, image_path@),
{
    match class {
        DesktopClass::GnomeFamily => {
            let built = CommandLine::new("gsettings").arg("set").arg(
                "org.gnome.desktop.background",
            ).arg("picture-uri").arg_with_prefix("file://", image_path);
            assert(built@.args =~= direct_command_of(class, image_path@)->0.args);
            Some(built)
        },
        DesktopClass::Kde => {
            let mut script = "var allDesktops = desktops();
                for (i=0;i<allDesktops.length;i++) {
                    d = allDesktops[i];
                    d.wallpaperPlugin = 'org.kde.image';
                    d.currentConfigGroup = Array('Wallpaper', 'org.kde.image', 'General');
                    d.writeConfig('Image', 'file://".to_owned();
            script.append(image_path);
            script.append("')");
            let built = CommandLine::new("qdbus").arg("org.kde.plasmashell").arg("/PlasmaShell").arg(
                "org.kde.PlasmaShell.evaluateScript",
            ).arg(script.as_str());
            assert(built@.args =~= direct_command_of(class, image_path@)->0.args);
            Some(built)
        },
        DesktopClass::Xfce => {
            let built = CommandLine::new("xfconf-query").arg("-c").arg("xfce4-desktop").arg("-p").arg(
                "/backdrop/screen0/monitor0/workspace0/last-image",
            ).arg("-s").arg(image_path);
            assert(built@.args =~= direct_command_of(class, image_path@)->0.args);
            Some(built)
        },
        _ => None,
    }
}

} // verus!
