//! The wallet bridge as the pages see it: whether a wallet is connected,
//! how its button is toned, and the one call that mounts the bridge.

use crate::keys::Pubkey;
use vstd::prelude::*;

verus! {

/// Whether a wallet is connected, and which account it stands for.
#[derive(Clone, Copy, Debug, PartialEq, Eq)]
pub enum WalletAdapter {
    Connected(Pubkey),
    Disconnected,
}

/// The colour scheme in use.
#[derive(Clone, Copy, Debug, PartialEq, Eq)]
pub enum Appearance {
    Light,
    Dark,
}

/// How the wallet button is toned.
#[derive(Clone, Copy, Debug, PartialEq, Eq)]
pub enum ButtonTone {
    /// Plain, on a light page.
    PlainOnLight,
    /// Plain, on a dark page.
    PlainOnDark,
    /// Highlighted: it invites to connect a wallet.
    Highlighted,
}

/// The tone of the wallet button: highlighted while no wallet is connected,
/// else plain in the colour scheme in use.
pub open spec fn button_tone(adapter: WalletAdapter, appearance: Appearance) -> ButtonTone {
    match adapter {
        WalletAdapter::Disconnected => ButtonTone::Highlighted,
        WalletAdapter::Connected(_) => match appearance {
            Appearance::Light => ButtonTone::PlainOnLight,
            Appearance::Dark => ButtonTone::PlainOnDark,
        },
    }
}

/// Picks the tone of the wallet button.
pub fn wallet_button_tone(adapter: &WalletAdapter, appearance: Appearance) -> (tone: ButtonTone)
    ensures
        tone == button_tone(*adapter, appearance),
        tone is Highlighted <==> *adapter is Disconnected,
{
    match adapter {
        WalletAdapter::Disconnected => ButtonTone::Highlighted,
        WalletAdapter::Connected(_) => match appearance {
            Appearance::Light => ButtonTone::PlainOnLight,
            Appearance::Dark => ButtonTone::PlainOnDark,
        },
    }
}

/// How far the mounting of the wallet bridge got.
#[derive(Clone, Copy, Debug, PartialEq, Eq)]
pub enum BridgeMount {
    /// The bridge was never asked to mount.
    Unmounted,
    /// The mount call is in flight.
    Mounting,
    /// The bridge is mounted and takes transactions.
    Mounted,
    /// The mount call failed; it is not made again.
    Failed,
}

impl BridgeMount {
    /// Whether a request to mount leads to the mount call: only the first
    /// does.
    pub open spec fn mount_due(self) -> bool {
        self is Unmounted
    }

    /// The state after a request to mount.
    pub open spec fn requested(self) -> BridgeMount {
        if self.mount_due() {
            BridgeMount::Mounting
        } else {
            self
        }
    }

    /// The state after the mount call ended, well or not.
    pub open spec fn finished(self, mounted: bool) -> BridgeMount {
        match self {
            BridgeMount::Mounting => if mounted {
                BridgeMount::Mounted
            } else {
                BridgeMount::Failed
            },
            _ => self,
        }
    }

    /// Whether the bridge takes transactions.
    pub open spec fn available(self) -> bool {
        self is Mounted
    }

    /// Asks for the bridge to be mounted. Returns whether the caller owes
    /// the mount call: it does for the first request and for no other.
    pub fn request_mount(&mut self) -> (due: bool)
        ensures
            *final(self) == old(self).requested(),
            due <==> old(self).mount_due(),
            due ==> *final(self) is Mounting,
            !due ==> *final(self) == *old(self),
    {
        match self {
            BridgeMount::Unmounted => {
                *self = BridgeMount::Mounting;
                true
            },
            _ => false,
        }
    }

    /// Folds the end of the mount call into the state. Returns whether a
    /// mount call was in flight.
    pub fn finish_mount(&mut self, mounted: bool) -> (taken: bool)
        ensures
            *final(self) == old(self).finished(mounted),
            taken <==> *old(self) is Mounting,
            taken ==> (final(self).available() <==> mounted),
            !taken ==> *final(self) == *old(self),
    {
        match self {
            BridgeMount::Mounting => {
                if mounted {
                    *self = BridgeMount::Mounted;
                } else {
                    *self = BridgeMount::Failed;
                }
                true
            },
            _ => false,
        }
    }

    /// Whether the bridge takes transactions.
    pub fn is_available(&self) -> (available: bool)
        ensures
            available <==> self.available(),
    {
        match self {
            BridgeMount::Mounted => true,
            _ => false,
        }
    }
}

/// The bridge is mounted by one call and no more: once a request was made,
/// no later request leads to a call, whether the first call is still in
/// flight, went well, or failed.
pub proof fn law_mounted_once(state: BridgeMount, mounted: bool)
    ensures
        !state.requested().mount_due(),
        !state.requested().finished(mounted).mount_due(),
        state.requested().finished(mounted).requested() == state.requested().finished(mounted),
        BridgeMount::Unmounted.requested().finished(mounted).available() <==> mounted,
        state.available() ==> state.requested() == state && state.finished(mounted) == state,
{
}

} // verus!
