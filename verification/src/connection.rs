//! Connection profiles and the addresses derived from them.

use vstd::prelude::*;
use vstd::string::StringExecFns;
use crate::text::{decimal, decimal_text};

verus! {

/// Port of the control endpoint when a profile names none.
pub const DEFAULT_CONTROL_PORT: u16 = 8443;

/// A backend connection profile.
#[derive(Clone, Debug, PartialEq, Eq)]
pub struct Connection {
    pub id: Option<i32>,
    pub name: String,
    pub ip_address: String,
    pub port: u16,
    pub username: Option<String>,
    pub password: Option<String>,
    pub last_connected: Option<String>,
    pub wss_host: Option<String>,
    pub wss_port: Option<u16>,
    pub is_connected: Option<bool>,
}

/// Mathematical model of a [`Connection`].
pub struct ConnectionView {
    pub id: Option<i32>,
    pub name: Seq<char>,
    pub ip_address: Seq<char>,
    pub port: u16,
    pub username: Option<Seq<char>>,
    pub password: Option<Seq<char>>,
    pub last_connected: Option<Seq<char>>,
    pub wss_host: Option<Seq<char>>,
    pub wss_port: Option<u16>,
    pub is_connected: Option<bool>,
}

impl DeepView for Connection {
    type V = ConnectionView;

    open spec fn deep_view(&self) -> ConnectionView {
        ConnectionView {
            id: self.id,
            name: self.name@,
            ip_address: self.ip_address@,
            port: self.port,
            username: self.username.deep_view(),
            password: self.password.deep_view(),
            last_connected: self.last_connected.deep_view(),
            wss_host: self.wss_host.deep_view(),
            wss_port: self.wss_port,
            is_connected: self.is_connected,
        }
    }
}

impl View for Connection {
    type V = ConnectionView;

    open spec fn view(&self) -> ConnectionView {
        self.deep_view()
    }
}

/// What saving a profile does to the registry.
#[derive(Clone, Debug, PartialEq, Eq)]
pub enum SaveAction {
    /// Overwrite the stored profile `id`.
    Update { id: i32, connected: bool },
    /// Store a new profile.
    Insert { connected: bool },
}

impl ConnectionView {
    /// Host of the control endpoint: the profile's own control host, or its
    /// target host when it names none.
    pub open spec fn control_host(self) -> Seq<char> {
        match self.wss_host {
            Some(h) => h,
            None => self.ip_address,
        }
    }

    /// Port of the control endpoint.
    pub open spec fn control_port(self) -> u16 {
        match self.wss_port {
            Some(p) => p,
            None => DEFAULT_CONTROL_PORT,
        }
    }

    /// `host:port` of the control endpoint.
    pub open spec fn control_authority(self) -> Seq<char> {
        self.control_host() + ":"@ + decimal(self.control_port() as nat)
    }

    /// Address of the control channel for the client `client_id`.
    pub open spec fn control_channel_url(self, client_id: Seq<char>) -> Seq<char> {
        "wss://"@ + self.control_authority() + "/sandra_ws?userId="@ + client_id
            + "&userName=SDC-User"@
    }

    /// Address that tells the backend that the client `client_id` left.
    pub open spec fn logout_url(self, client_id: Seq<char>) -> Seq<char> {
        "https://"@ + self.control_authority() + "/logout:"@ + client_id
    }

    /// Address of `path` on the profile's target host.
    pub open spec fn tunnel_url(self, path: Seq<char>) -> Seq<char> {
        "https://"@ + self.ip_address + ":"@ + decimal(self.port as nat) + path
    }

    /// The profile is marked as the one in use.
    pub open spec fn active(self) -> bool {
        self.is_connected == Some(true)
    }

    /// Another stored profile, `existing`, already bears this profile's
    /// name.
    pub open spec fn name_taken(self, existing: Option<i32>) -> bool {
        existing is Some && self.id != existing
    }

    /// Message for a profile whose name is taken.
    pub open spec fn name_taken_message(self) -> Seq<char> {
        "El perfil '"@ + self.name + "' ya existe."@
    }
}

impl Connection {
    /// `host:port` of the control endpoint.
    fn control_authority(&self) -> (r: String)
        ensures
            r@ == self@.control_authority(),
    {
        let host: &str = match &self.wss_host {
            Some(h) => h.as_str(),
            None => self.ip_address.as_str(),
        };
        let port: u16 = match self.wss_port {
            Some(p) => p,
            None => DEFAULT_CONTROL_PORT,
        };
        String::from_str(host).concat(":").concat(decimal_text(port as u64).as_str())
    }

    /// Address of the control channel for the client `client_id`.
    pub fn control_channel_url(&self, client_id: &str) -> (r: String)
        ensures
            r@ == self@.control_channel_url(client_id@),
    {
        String::from_str("wss://").concat(self.control_authority().as_str()).concat(
            "/sandra_ws?userId=",
        ).concat(client_id).concat("&userName=SDC-User")
    }

    /// Address that tells the backend that the client `client_id` left.
    pub fn logout_url(&self, client_id: &str) -> (r: String)
        ensures
            r@ == self@.logout_url(client_id@),
    {
        String::from_str("https://").concat(self.control_authority().as_str()).concat(
            "/logout:",
        ).concat(client_id)
    }

    /// Address of `path` on the profile's target host.
    pub fn tunnel_url(&self, path: &str) -> (r: String)
        ensures
            r@ == self@.tunnel_url(path@),
    {
        String::from_str("https://").concat(self.ip_address.as_str()).concat(":").concat(
            decimal_text(self.port as u64).as_str(),
        ).concat(path)
    }

    /// Tells whether the profile is marked as the one in use.
    pub fn is_active(&self) -> (r: bool)
        ensures
            r == self@.active(),
    {
        match self.is_connected {
            Some(b) => b,
            None => false,
        }
    }

    /// Decides what saving this profile does, given the id of the stored
    /// profile that already bears its name, if there is one.
    ///
    /// A name may be kept by the profile that owns it and by no other: the
    /// save is refused when `existing` is another profile. Otherwise a
    /// profile with an id overwrites its stored form, and one without is
    /// stored as new.
    pub fn plan_save(&self, existing: Option<i32>) -> (r: Result<SaveAction, String>)
        ensures
            match r {
                Ok(SaveAction::Update { id, connected }) => {
                    &&& !self@.name_taken(existing)
                    &&& self.id == Some(id)
                    &&& connected == self@.active()
                },
                Ok(SaveAction::Insert { connected }) => {
                    &&& !self@.name_taken(existing)
                    &&& self.id is None
                    &&& connected == self@.active()
                },
                Err(message) => {
                    &&& self@.name_taken(existing)
                    &&& message@ == self@.name_taken_message()
                },
            },
    {
        let taken = match existing {
            Some(e) => match self.id {
                Some(own) => own != e,
                None => true,
            },
            None => false,
        };
        if taken {
            return Err(
                String::from_str("El perfil '").concat(self.name.as_str()).concat("' ya existe."),
            );
        }
        let connected = self.is_active();
        match self.id {
            Some(id) => Ok(SaveAction::Update { id, connected }),
            None => Ok(SaveAction::Insert { connected }),
        }
    }
}

} // verus!
