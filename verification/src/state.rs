use vstd::prelude::*;

use crate::text::is_blank;

verus! {

/// Who may keep the vault alive, who inherits it, in which token, and how many
/// blocks may pass between heartbeats.
#[derive(Clone, Debug, PartialEq, Eq)]
pub struct Config {
    pub owner: String,
    pub beneficiary: String,
    pub denom: String,
    pub heartbeat_window: u64,
}

pub struct ConfigView {
    pub owner: Seq<char>,
    pub beneficiary: Seq<char>,
    pub denom: Seq<char>,
    pub heartbeat_window: u64,
}

impl View for Config {
    type V = ConfigView;

    open spec fn view(&self) -> ConfigView {
        ConfigView {
            owner: self.owner@,
            beneficiary: self.beneficiary@,
            denom: self.denom@,
            heartbeat_window: self.heartbeat_window,
        }
    }
}

impl Config {
    /// A copy of this configuration, field by field.
    pub fn duplicate(&self) -> (c: Config)
        ensures
            c@ == self@,
    {
        Config {
            owner: self.owner.clone(),
            beneficiary: self.beneficiary.clone(),
            denom: self.denom.clone(),
            heartbeat_window: self.heartbeat_window,
        }
    }
}

/// Everything the vault stores: its configuration and the height of the last heartbeat.
#[derive(Clone, Debug, PartialEq, Eq)]
pub struct VaultState {
    pub config: Config,
    pub last_heartbeat: u64,
}

pub struct VaultView {
    pub config: ConfigView,
    pub last_heartbeat: u64,
}

impl View for VaultState {
    type V = VaultView;

    open spec fn view(&self) -> VaultView {
        VaultView { config: self.config@, last_heartbeat: self.last_heartbeat }
    }
}

impl VaultState {
    /// Whether the expiration height (last heartbeat plus window) fits in a `u64`.
    pub fn expiry_fits(&self) -> (r: bool)
        ensures
            r == self@.expiry_fits(),
    {
        self.last_heartbeat.checked_add(self.config.heartbeat_window).is_some()
    }
}

impl VaultView {
    /// The vault's invariant: a positive heartbeat window and a denomination that is not blank.
    pub open spec fn wf(self) -> bool {
        &&& self.config.heartbeat_window > 0
        &&& !is_blank(self.config.denom)
    }

    /// The last height at which the vault is still alive.
    pub open spec fn expires_at(self) -> int {
        self.last_heartbeat + self.config.heartbeat_window
    }

    /// The expiration height fits in a `u64`, so computing it does not overflow.
    pub open spec fn expiry_fits(self) -> bool {
        self.expires_at() <= u64::MAX
    }

    /// At block `height` the heartbeat window has lapsed.
    pub open spec fn expired_at(self, height: u64) -> bool {
        height > self.expires_at()
    }

    /// The vault after a heartbeat at block `height`.
    pub open spec fn with_heartbeat(self, height: u64) -> VaultView {
        VaultView { config: self.config, last_heartbeat: height }
    }

    /// The vault after a configuration update; each `None` keeps the current value.
    pub open spec fn with_update(
        self,
        owner: Option<Seq<char>>,
        beneficiary: Option<Seq<char>>,
        heartbeat_window: Option<u64>,
    ) -> VaultView {
        VaultView {
            config: ConfigView {
                owner: match owner {
                    Some(o) => o,
                    None => self.config.owner,
                },
                beneficiary: match beneficiary {
                    Some(b) => b,
                    None => self.config.beneficiary,
                },
                denom: self.config.denom,
                heartbeat_window: match heartbeat_window {
                    Some(w) => w,
                    None => self.config.heartbeat_window,
                },
            },
            last_heartbeat: self.last_heartbeat,
        }
    }
}

/// The view of an optional text.
pub open spec fn opt_view(s: Option<String>) -> Option<Seq<char>> {
    match s {
        Some(t) => Some(t@),
        None => None,
    }
}

} // verus!
