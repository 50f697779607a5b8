//! The popups that a screen can open over itself.

use crate::popups::exit::Exit;
use crate::popups::insert_domain_password::InsertDomainPassword;
use crate::popups::insert_master::InsertMaster;
use crate::popups::insert_password::InsertPassword;
use crate::popups::message::MessagePopup;
use vstd::prelude::*;

pub mod exit;
pub mod insert_domain_password;
pub mod insert_master;
pub mod insert_password;
pub mod message;

verus! {

/// The kinds of popup.
#[derive(Debug, Clone, Copy, PartialEq, Eq, Structural)]
pub enum PopupType {
    Exit,
    InsertDomainPassword,
    Message,
    InsertMaster,
    InsertPassword,
}

/// What a key press makes of the popup that took it.
#[derive(Debug, Clone, Copy, PartialEq, Eq, Structural)]
pub enum PopupAction {
    /// The popup stays open.
    Stay,
    /// The popup closes and nothing more happens.
    Dismiss,
    /// The popup closes and the screen below takes what was entered.
    Finish,
    /// The popup stays open and asks for a generated secret, which
    /// `set_generated` takes.
    Generate,
    /// The application ends.
    Quit,
}

/// A popup of any kind.
#[derive(Debug)]
pub enum Popup {
    Exit(Exit),
    InsertDomainPassword(InsertDomainPassword),
    Message(MessagePopup),
    InsertMaster(InsertMaster),
    InsertPassword(InsertPassword),
}

impl Popup {
    /// The kind of the popup.
    pub fn popup_type(&self) -> (kind: PopupType)
        ensures
            kind == match self {
                Popup::Exit(_) => PopupType::Exit,
                Popup::InsertDomainPassword(_) => PopupType::InsertDomainPassword,
                Popup::Message(_) => PopupType::Message,
                Popup::InsertMaster(_) => PopupType::InsertMaster,
                Popup::InsertPassword(_) => PopupType::InsertPassword,
            },
    {
        match self {
            Popup::Exit(_) => PopupType::Exit,
            Popup::InsertDomainPassword(_) => PopupType::InsertDomainPassword,
            Popup::Message(_) => PopupType::Message,
            Popup::InsertMaster(_) => PopupType::InsertMaster,
            Popup::InsertPassword(_) => PopupType::InsertPassword,
        }
    }

    /// The columns and rows that the popup is drawn in.
    pub fn size(&self) -> (area: (u16, u16))
        ensures
            area == match self {
                Popup::Exit(_) => Exit::spec_min_area(),
                Popup::InsertDomainPassword(_) => InsertDomainPassword::spec_min_area(),
                Popup::Message(popup) => (popup.width, popup.height),
                Popup::InsertMaster(_) => InsertMaster::spec_min_area(),
                Popup::InsertPassword(_) => InsertPassword::spec_min_area(),
            },
    {
        match self {
            Popup::Exit(_) => Exit::min_area(),
            Popup::InsertDomainPassword(_) => InsertDomainPassword::min_area(),
            Popup::Message(popup) => (popup.width, popup.height),
            Popup::InsertMaster(_) => InsertMaster::min_area(),
            Popup::InsertPassword(_) => InsertPassword::min_area(),
        }
    }
}

/// The larger of two numbers.
pub open spec fn larger(a: u16, b: u16) -> u16 {
    if a >= b {
        a
    } else {
        b
    }
}

fn max16(a: u16, b: u16) -> (m: u16)
    ensures
        m == larger(a, b),
{
    if a >= b {
        a
    } else {
        b
    }
}

/// The columns and rows that the terminal needs for any popup to fit: the
/// widest popup's columns and the tallest popup's rows.
pub fn min_area() -> (area: (u16, u16))
    ensures
        area == (36u16, 10u16),
        area.0 == larger(
            larger(
                larger(
                    larger(InsertMaster::spec_min_area().0, InsertDomainPassword::spec_min_area().0),
                    Exit::spec_min_area().0,
                ),
                MessagePopup::spec_min_area().0,
            ),
            InsertPassword::spec_min_area().0,
        ),
        area.1 == larger(
            larger(
                larger(
                    larger(InsertMaster::spec_min_area().1, InsertDomainPassword::spec_min_area().1),
                    Exit::spec_min_area().1,
                ),
                MessagePopup::spec_min_area().1,
            ),
            InsertPassword::spec_min_area().1,
        ),
{
    let (im_width, im_height) = InsertMaster::min_area();
    let (idm_width, idm_height) = InsertDomainPassword::min_area();
    let (e_width, e_height) = Exit::min_area();
    let (m_width, m_height) = MessagePopup::min_area();
    let (ip_width, ip_height) = InsertPassword::min_area();
    (
        max16(max16(max16(max16(im_width, idm_width), e_width), m_width), ip_width),
        max16(max16(max16(max16(im_height, idm_height), e_height), m_height), ip_height),
    )
}

} // verus!
