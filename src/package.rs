use vstd::prelude::*;

verus! {

/// The package formats a built executable can be bundled into.
#[derive(Debug, Clone, Copy, PartialEq, Eq, Structural)]
pub enum PackageType {
    MacOsBundle,
    IosBundle,
    WindowsMsi,
    Nsis,
    Deb,
    Rpm,
    AppImage,
    Dmg,
    Updater,
}

/// The container format of an executable image.
#[derive(Debug, Clone, Copy, PartialEq, Eq, Structural)]
pub enum ExecutableFormat {
    Elf,
    Pe,
    Unknown,
}

impl PackageType {
    pub open spec fn spec_short_name(self) -> &'static str {
        match self {
            PackageType::MacOsBundle => "app",
            PackageType::IosBundle => "ios",
            PackageType::WindowsMsi => "msi",
            PackageType::Nsis => "nsis",
            PackageType::Deb => "deb",
            PackageType::Rpm => "rpm",
            PackageType::AppImage => "appimage",
            PackageType::Dmg => "dmg",
            PackageType::Updater => "updater",
        }
    }

    /// The short name of the package type, as used in messages and on the command line.
    pub fn short_name(&self) -> (r: &'static str)
        ensures
            r == self.spec_short_name(),
    {
        match self {
            PackageType::MacOsBundle => "app",
            PackageType::IosBundle => "ios",
            PackageType::WindowsMsi => "msi",
            PackageType::Nsis => "nsis",
            PackageType::Deb => "deb",
            PackageType::Rpm => "rpm",
            PackageType::AppImage => "appimage",
            PackageType::Dmg => "dmg",
            PackageType::Updater => "updater",
        }
    }
}

/// The three ASCII bytes ("DEB", "RPM", "APP", "NSS", "MSI") that mark a binary of `format` bundled as `package`,
/// or `None` where the package type does not apply to that format.
pub open spec fn marker_code(format: ExecutableFormat, package: PackageType) -> Option<Seq<u8>> {
    match (format, package) {
        (ExecutableFormat::Elf, PackageType::Deb) => Some(seq![0x44, 0x45, 0x42]),
        (ExecutableFormat::Elf, PackageType::Rpm) => Some(seq![0x52, 0x50, 0x4d]),
        (ExecutableFormat::Elf, PackageType::AppImage) => Some(seq![0x41, 0x50, 0x50]),
        (ExecutableFormat::Pe, PackageType::Nsis) => Some(seq![0x4e, 0x53, 0x53]),
        (ExecutableFormat::Pe, PackageType::WindowsMsi) => Some(seq![0x4d, 0x53, 0x49]),
        _ => None,
    }
}

/// The platform name that goes with a container format in error reports.
pub open spec fn platform_name(format: ExecutableFormat) -> &'static str {
    match format {
        ExecutableFormat::Elf => "linux",
        ExecutableFormat::Pe => "windows",
        ExecutableFormat::Unknown => "unknown",
    }
}

/// Executable form of [`marker_code`].
pub fn marker_code_for(format: ExecutableFormat, package: PackageType) -> (r: Option<(u8, u8, u8)>)
    ensures
        match r {
            Some(c) => marker_code(format, package) == Some(seq![c.0, c.1, c.2]),
            None => marker_code(format, package) is None,
        },
{
    match (format, package) {
        (ExecutableFormat::Elf, PackageType::Deb) => Some((0x44, 0x45, 0x42)),
        (ExecutableFormat::Elf, PackageType::Rpm) => Some((0x52, 0x50, 0x4d)),
        (ExecutableFormat::Elf, PackageType::AppImage) => Some((0x41, 0x50, 0x50)),
        (ExecutableFormat::Pe, PackageType::Nsis) => Some((0x4e, 0x53, 0x53)),
        (ExecutableFormat::Pe, PackageType::WindowsMsi) => Some((0x4d, 0x53, 0x49)),
        _ => None,
    }
}

/// Executable form of [`platform_name`].
pub fn platform_name_of(format: ExecutableFormat) -> (r: &'static str)
    ensures
        r == platform_name(format),
{
    match format {
        ExecutableFormat::Elf => "linux",
        ExecutableFormat::Pe => "windows",
        ExecutableFormat::Unknown => "unknown",
    }
}

} // verus!
