//! Parsed resources of the main module.
use vstd::prelude::*;

verus! {

/// A dialog template (`RT_DIALOG`).
#[derive(Debug, Clone)]
pub struct DialogTemplate {
    /// Resource id.
    pub id: u16,
    /// Language id.
    pub lang: u16,
    /// Caption.
    pub title: String,
}

/// One entry of a menu template.
#[derive(Debug)]
pub struct MenuItemTemplate {
    /// `MF_*` bits.
    pub flags: u32,
    /// Command id (0 for popups and separators).
    pub id: u16,
    /// Caption, absent for separators.
    pub text: Option<String>,
    /// Entries of a popup.
    pub sub: Vec<MenuItemTemplate>,
}

/// A menu template (`RT_MENU`).
#[derive(Debug)]
pub struct MenuTemplate {
    /// Resource id.
    pub id: u16,
    /// Language id.
    pub lang: u16,
    /// Top-level entries.
    pub items: Vec<MenuItemTemplate>,
}

/// A block of sixteen strings (`RT_STRING`).
#[derive(Debug, Clone)]
pub struct StringBlock {
    /// Block number: string id divided by sixteen, plus one.
    pub block: u16,
    /// Language id.
    pub lang: u16,
    /// The strings of the block.
    pub strings: Vec<String>,
}

/// One entry of an accelerator table.
#[derive(Debug, Clone, Copy, PartialEq, Eq, Structural)]
pub struct AccelEntry {
    /// `FVIRTKEY` / `FSHIFT` / `FCONTROL` / `FALT` bits.
    pub flags: u8,
    /// Virtual key, or character code without `FVIRTKEY`.
    pub key: u16,
    /// Command to post.
    pub command_id: u16,
}

/// An accelerator table (`RT_ACCELERATOR`).
#[derive(Debug, Clone)]
pub struct AccelTemplate {
    /// Resource id.
    pub id: u16,
    /// Language id.
    pub lang: u16,
    /// The entries.
    pub entries: Vec<AccelEntry>,
}

} // verus!
