//! UPDATE messages: what each of them says.

use crate::bgp::bgpls::{LsNlri, LsNlriView};
use crate::bgp::msg::{MessageFormat, MAX_MESSAGE_SIZE};
use crate::bgp::multiprotocol::AfiSafi;
use crate::net::network::IpNetwork;
use crate::rib::{Path, PathView};
use crate::seqs;
use std::sync::Arc;
use vstd::prelude::*;

verus! {

/// What an UPDATE message says.
#[derive(Debug)]
pub enum UpdateMessage {
    /// Prefixes are reached by a path.
    Announce { path: Arc<Path>, prefixes: Vec<IpNetwork>, format: MessageFormat },
    /// Link-state objects are described by a path.
    AnnounceLs { path: Arc<Path>, nlri: Vec<LsNlri>, afi_safi: AfiSafi, format: MessageFormat },
    /// Prefixes are no longer reached, each by one path where that is named.
    Withdraw { withdrawn: Vec<(IpNetwork, Option<u32>)>, format: MessageFormat },
    /// Link-state objects are gone.
    WithdrawLs { objects: Vec<(LsNlri, Option<u32>)>, afi_safi: AfiSafi, format: MessageFormat },
    /// All routes of a family were sent.
    EndOfRib { afi_safi: AfiSafi, format: MessageFormat },
}

pub enum UpdateView {
    Announce { path: PathView, prefixes: Seq<IpNetwork>, format: MessageFormat },
    AnnounceLs { path: PathView, nlri: Seq<LsNlriView>, afi_safi: AfiSafi, format: MessageFormat },
    Withdraw { withdrawn: Seq<(IpNetwork, Option<u32>)>, format: MessageFormat },
    WithdrawLs {
        objects: Seq<(LsNlriView, Option<u32>)>,
        afi_safi: AfiSafi,
        format: MessageFormat,
    },
    EndOfRib { afi_safi: AfiSafi, format: MessageFormat },
}

/// What withdrawn link-state objects hold.
pub open spec fn ls_withdrawal_views(s: Seq<(LsNlri, Option<u32>)>) -> Seq<
    (LsNlriView, Option<u32>),
> {
    Seq::new(s.len(), |i: int| (s[i].0@, s[i].1))
}

impl View for UpdateMessage {
    type V = UpdateView;

    open spec fn view(&self) -> UpdateView {
        match self {
            UpdateMessage::Announce { path, prefixes, format } => UpdateView::Announce {
                path: path@,
                prefixes: prefixes@,
                format: *format,
            },
            UpdateMessage::AnnounceLs { path, nlri, afi_safi, format } => UpdateView::AnnounceLs {
                path: path@,
                nlri: seqs::views(nlri@),
                afi_safi: *afi_safi,
                format: *format,
            },
            UpdateMessage::Withdraw { withdrawn, format } => UpdateView::Withdraw {
                withdrawn: withdrawn@,
                format: *format,
            },
            UpdateMessage::WithdrawLs { objects, afi_safi, format } => UpdateView::WithdrawLs {
                objects: ls_withdrawal_views(objects@),
                afi_safi: *afi_safi,
                format: *format,
            },
            UpdateMessage::EndOfRib { afi_safi, format } => UpdateView::EndOfRib {
                afi_safi: *afi_safi,
                format: *format,
            },
        }
    }
}

impl UpdateView {
    /// Whether a message of `size` bytes is sent: announcements are, unless they
    /// are longer than a message may be.
    pub open spec fn sendable(self, size: int) -> bool {
        match self {
            UpdateView::Announce { path: _, prefixes: _, format: _ } => size <= MAX_MESSAGE_SIZE,
            UpdateView::AnnounceLs { path: _, nlri: _, afi_safi: _, format: _ } => size
                <= MAX_MESSAGE_SIZE,
            _ => true,
        }
    }
}

impl UpdateMessage {
    /// Whether the message is sent when it takes `size` bytes.
    pub fn is_sendable(&self, size: usize) -> (r: bool)
        ensures
            r == self@.sendable(size as int),
    {
        match self {
            UpdateMessage::Announce { path: _, prefixes: _, format: _ } => size
                <= MAX_MESSAGE_SIZE as usize,
            UpdateMessage::AnnounceLs { path: _, nlri: _, afi_safi: _, format: _ } => size
                <= MAX_MESSAGE_SIZE as usize,
            _ => true,
        }
    }
}

} // verus!
