//! What an accordion button shows and whether it can be pressed.

use crate::icons::{IconCacheKey, BUNDLED_ICON_SIZE};
use vstd::prelude::*;

verus! {

/// Whether an accordion button can be pressed.
#[derive(Debug, Clone, Copy, PartialEq, Eq, Structural)]
pub enum AccordionButtonStatus {
    Disabled,
    Enabled,
}

impl AccordionButtonStatus {
    /// The status of a button that is disabled exactly when `busy` holds.
    pub fn unless(busy: bool) -> (status: AccordionButtonStatus)
        ensures
            status == if busy {
                AccordionButtonStatus::Disabled
            } else {
                AccordionButtonStatus::Enabled
            },
    {
        if busy {
            AccordionButtonStatus::Disabled
        } else {
            AccordionButtonStatus::Enabled
        }
    }

    /// What pressing a button of this status sends: `message` from an
    /// enabled button, nothing from a disabled one.
    pub fn on_press<M>(&self, message: M) -> (sent: Option<M>)
        ensures
            sent == match *self {
                AccordionButtonStatus::Disabled => None::<M>,
                AccordionButtonStatus::Enabled => Some(message),
            },
    {
        match self {
            AccordionButtonStatus::Disabled => None,
            AccordionButtonStatus::Enabled => Some(message),
        }
    }
}

/// The bundled pictures that stand for the screens.
#[derive(Debug, Clone, Copy, PartialEq, Eq, Structural)]
pub enum PossibleBundledSVGs {
    UpdateSystem,
    UpdateApplications,
    SystemStatus,
    Rollback,
}

impl PossibleBundledSVGs {
    /// The name of the bundled icon that shows this picture.
    pub open spec fn icon_name(&self) -> Seq<char> {
        match self {
            PossibleBundledSVGs::UpdateSystem => "system-software-install-symbolic"@,
            PossibleBundledSVGs::UpdateApplications => "software-update-available-symbolic"@,
            PossibleBundledSVGs::SystemStatus => "utilities-system-monitor-symbolic"@,
            PossibleBundledSVGs::Rollback => "view-refresh-symbolic"@,
        }
    }

    /// The key under which the icon cache holds this picture.
    pub fn get(&self) -> (key: IconCacheKey)
        ensures
            key.name_text() == self.icon_name(),
            key.size_of() == BUNDLED_ICON_SIZE,
    {
        match self {
            PossibleBundledSVGs::UpdateSystem => IconCacheKey::new(
                "system-software-install-symbolic",
                BUNDLED_ICON_SIZE,
            ),
            PossibleBundledSVGs::UpdateApplications => IconCacheKey::new(
                "software-update-available-symbolic",
                BUNDLED_ICON_SIZE,
            ),
            PossibleBundledSVGs::SystemStatus => IconCacheKey::new(
                "utilities-system-monitor-symbolic",
                BUNDLED_ICON_SIZE,
            ),
            PossibleBundledSVGs::Rollback => IconCacheKey::new(
                "view-refresh-symbolic",
                BUNDLED_ICON_SIZE,
            ),
        }
    }
}

/// The icon of an accordion button.
#[derive(Debug, Clone)]
pub enum AccordionIcon {
    /// No icon at all.
    Absent,
    SvgPath { svg_path: String },
    ImgPath { img_path: String },
    BundledSvg { svg: PossibleBundledSVGs },
}

impl AccordionIcon {
    /// The side, in pixels, of the square in which the icon is drawn: 40
    /// for a bundled picture, 50 for a file, 0 where there is no icon.
    pub open spec fn side_of(&self) -> u16 {
        match self {
            AccordionIcon::Absent => 0,
            AccordionIcon::SvgPath { .. } => 50,
            AccordionIcon::ImgPath { .. } => 50,
            AccordionIcon::BundledSvg { .. } => 40,
        }
    }

    /// The side, in pixels, of the square in which the icon is drawn.
    pub fn side(&self) -> (side: u16)
        ensures
            side == self.side_of(),
    {
        match self {
            AccordionIcon::Absent => 0,
            AccordionIcon::SvgPath { .. } => 50,
            AccordionIcon::ImgPath { .. } => 50,
            AccordionIcon::BundledSvg { .. } => 40,
        }
    }

    /// The icon of an application: the SVG file at `path`, or none.
    pub fn for_application(path: &Option<String>) -> (icon: AccordionIcon)
        ensures
            match *path {
                Some(p) => icon matches AccordionIcon::SvgPath { svg_path } && svg_path@ == p@,
                None => icon is Absent,
            },
    {
        match path {
            Some(p) => AccordionIcon::SvgPath { svg_path: p.clone() },
            None => AccordionIcon::Absent,
        }
    }
}

} // verus!
