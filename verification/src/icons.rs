//! The icons that the front end bundles, and the key under which a loaded
//! icon is cached.

use vstd::prelude::*;

verus! {

/// The size, in pixels, at which the bundled icons are drawn.
pub const BUNDLED_ICON_SIZE: u16 = 18;

/// The key of a cached icon: its name and the size it is drawn at.
#[derive(Clone, Copy, Debug, Eq, Hash, PartialEq)]
pub struct IconCacheKey {
    name: &'static str,
    size: u16,
}

impl IconCacheKey {
    /// The key of the icon `name` at `size` pixels.
    pub fn new(name: &'static str, size: u16) -> (key: IconCacheKey)
        ensures
            key.name_text() == name@,
            key.size_of() == size,
    {
        IconCacheKey { name, size }
    }

    /// The name of the icon.
    pub closed spec fn name_text(&self) -> Seq<char> {
        self.name@
    }

    /// The size of the icon.
    pub closed spec fn size_of(&self) -> u16 {
        self.size
    }

    /// The name of the icon.
    pub fn name(&self) -> (name: &'static str)
        ensures
            name@ == self.name_text(),
    {
        self.name
    }

    /// The size of the icon, in pixels.
    pub fn size(&self) -> (size: u16)
        ensures
            size == self.size_of(),
    {
        self.size
    }
}

/// The names of the bundled icons.
pub open spec fn bundled_names() -> Seq<Seq<char>> {
    seq![
        "emblem-system-symbolic"@,
        "go-previous-symbolic"@,
        "view-refresh-symbolic"@,
        "software-update-available-symbolic"@,
        "system-software-install-symbolic"@,
        "utilities-system-monitor-symbolic"@,
        "help-info-symbolic"@,
    ]
}

/// The keys of the icons that the front end bundles, each at
/// [`BUNDLED_ICON_SIZE`] pixels: what an icon cache holds from the start.
pub fn bundled_icons() -> (keys: Vec<IconCacheKey>)
    ensures
        keys.len() == bundled_names().len(),
        forall|i: int|
            0 <= i < keys.len() ==> (#[trigger] keys[i]).name_text() == bundled_names()[i]
                && keys[i].size_of() == BUNDLED_ICON_SIZE,
{
    let mut keys: Vec<IconCacheKey> = Vec::new();
    keys.push(IconCacheKey::new("emblem-system-symbolic", BUNDLED_ICON_SIZE));
    keys.push(IconCacheKey::new("go-previous-symbolic", BUNDLED_ICON_SIZE));
    keys.push(IconCacheKey::new("view-refresh-symbolic", BUNDLED_ICON_SIZE));
    keys.push(IconCacheKey::new("software-update-available-symbolic", BUNDLED_ICON_SIZE));
    keys.push(IconCacheKey::new("system-software-install-symbolic", BUNDLED_ICON_SIZE));
    keys.push(IconCacheKey::new("utilities-system-monitor-symbolic", BUNDLED_ICON_SIZE));
    keys.push(IconCacheKey::new("help-info-symbolic", BUNDLED_ICON_SIZE));
    keys
}

} // verus!
