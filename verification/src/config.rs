//! The settings of the program, and what the choices in its menu do to
//! them.

use vstd::prelude::*;

verus! {

/// The height of the title band that a new configuration has.
pub const DEFAULT_TITLE_BAR_HEIGHT: u32 = 40;

/// The proxy that is filled in where the proxy is switched on and none is
/// set.
pub const DEFAULT_PROXY_URL: &'static str = "socks5://127.0.0.1:2888";

/// The settings of the program.
#[derive(Debug, Clone)]
pub struct AppConfig {
    /// Whether moving windows with the middle button is switched off.
    pub disable_hook: bool,
    /// Whether the program starts at login.
    pub auto_start: bool,
    /// Whether the program starts hidden in the tray.
    pub start_minimized: bool,
    /// Whether the program checks for updates when it starts.
    pub auto_check_update: bool,
    /// The height of the band at the top of a window that counts as its
    /// title bar.
    pub title_bar_height: u32,
    /// Whether the proxy is used.
    pub proxy_enabled: bool,
    /// The address of the proxy, such as `socks5://127.0.0.1:1080`.
    pub proxy_url: String,
    /// The user name for the proxy, where it asks for one.
    pub proxy_username: Option<String>,
    /// The password for the proxy, where it asks for one.
    pub proxy_password: Option<String>,
}

/// The value of a switch that is on unless the configuration says
/// otherwise.
pub fn default_true() -> (on: bool)
    ensures
        on,
{
    true
}

/// The height of the title band unless the configuration says otherwise.
pub fn default_title_bar_height() -> (height: u32)
    ensures
        height == DEFAULT_TITLE_BAR_HEIGHT,
{
    DEFAULT_TITLE_BAR_HEIGHT
}

/// The proxy that a check for updates goes through: its address, user name
/// and password.
#[derive(Debug, Clone)]
pub struct ProxySettings {
    pub url: Option<String>,
    pub username: Option<String>,
    pub password: Option<String>,
}

impl AppConfig {
    /// Whether this is the configuration that the program starts with
    /// where none is stored: checking for updates is on, everything else
    /// is off, no proxy is set, and the title band has its default height.
    pub open spec fn is_default(self) -> bool {
        &&& !self.disable_hook
        &&& !self.auto_start
        &&& !self.start_minimized
        &&& self.auto_check_update
        &&& self.title_bar_height == DEFAULT_TITLE_BAR_HEIGHT
        &&& !self.proxy_enabled
        &&& self.proxy_url@ == Seq::<char>::empty()
        &&& self.proxy_username.is_none()
        &&& self.proxy_password.is_none()
    }

    /// Whether a proxy is in use: the proxy is switched on and has an
    /// address.
    pub open spec fn uses_proxy(self) -> bool {
        self.proxy_enabled && self.proxy_url@.len() > 0
    }

    /// Whether the mouse hook is to be installed at start: it is where the
    /// program may watch the mouse and moving windows is not switched off.
    pub fn hook_wanted(&self, has_permission: bool) -> (wanted: bool)
        ensures
            wanted == (has_permission && !self.disable_hook),
    {
        has_permission && !self.disable_hook
    }

    /// Switches moving windows with the middle button off if it is on, and
    /// on if it is off. Returns whether it is on afterwards.
    pub fn toggle_hook(&mut self) -> (enabled: bool)
        ensures
            *final(self) == (AppConfig { disable_hook: !old(self).disable_hook, ..*old(self) }),
            enabled == old(self).disable_hook,
    {
        self.disable_hook = !self.disable_hook;
        !self.disable_hook
    }

    /// Switches start at login over. Returns whether it is on afterwards.
    pub fn toggle_auto_start(&mut self) -> (enabled: bool)
        ensures
            *final(self) == (AppConfig { auto_start: !old(self).auto_start, ..*old(self) }),
            enabled == !old(self).auto_start,
    {
        self.auto_start = !self.auto_start;
        self.auto_start
    }

    /// Switches the check for updates at start over. Returns whether it is
    /// on afterwards.
    pub fn toggle_auto_check_update(&mut self) -> (enabled: bool)
        ensures
            *final(self) == (AppConfig {
                auto_check_update: !old(self).auto_check_update,
                ..*old(self)
            }),
            enabled == !old(self).auto_check_update,
    {
        self.auto_check_update = !self.auto_check_update;
        self.auto_check_update
    }

    /// Switches the proxy over. Returns whether it is on afterwards.
    ///
    /// Where the proxy is switched on and has no address, it gets
    /// `DEFAULT_PROXY_URL`. Nothing else changes.
    pub fn toggle_proxy(&mut self) -> (enabled: bool)
        ensures
            enabled == !old(self).proxy_enabled,
            final(self).proxy_enabled == enabled,
            final(self).proxy_url@ == if enabled && old(self).proxy_url@.len() == 0 {
                DEFAULT_PROXY_URL@
            } else {
                old(self).proxy_url@
            },
            final(self).disable_hook == old(self).disable_hook,
            final(self).auto_start == old(self).auto_start,
            final(self).start_minimized == old(self).start_minimized,
            final(self).auto_check_update == old(self).auto_check_update,
            final(self).title_bar_height == old(self).title_bar_height,
            final(self).proxy_username == old(self).proxy_username,
            final(self).proxy_password == old(self).proxy_password,
    {
        if self.proxy_enabled {
            self.proxy_enabled = false;
        } else {
            if self.proxy_url.as_str().is_empty() {
                self.proxy_url = DEFAULT_PROXY_URL.to_owned();
            }
            self.proxy_enabled = true;
        }
        self.proxy_enabled
    }

    /// Takes in the proxy that the user has entered: the proxy is switched
    /// on with the address `url`. It keeps the user name and password
    /// where `credentials` holds them and the user name is not empty, and
    /// has none else. Nothing else changes.
    pub fn set_proxy(&mut self, url: String, credentials: Option<(String, String)>)
        ensures
            final(self).proxy_enabled,
            final(self).proxy_url == url,
            match credentials {
                Some((username, password)) if username@.len() > 0 => {
                    &&& final(self).proxy_username == Some(username)
                    &&& final(self).proxy_password == Some(password)
                },
                _ => {
                    &&& final(self).proxy_username.is_none()
                    &&& final(self).proxy_password.is_none()
                },
            },
            final(self).disable_hook == old(self).disable_hook,
            final(self).auto_start == old(self).auto_start,
            final(self).start_minimized == old(self).start_minimized,
            final(self).auto_check_update == old(self).auto_check_update,
            final(self).title_bar_height == old(self).title_bar_height,
    {
        self.proxy_url = url;
        self.proxy_enabled = true;
        match credentials {
            Some((username, password)) => {
                if username.as_str().is_empty() {
                    self.proxy_username = None;
                    self.proxy_password = None;
                } else {
                    self.proxy_username = Some(username);
                    self.proxy_password = Some(password);
                }
            },
            None => {
                self.proxy_username = None;
                self.proxy_password = None;
            },
        }
    }

    /// Gives the proxy that a check for updates goes through: the
    /// configured one where a proxy is in use, and none where not.
    pub fn proxy_settings(&self) -> (proxy: ProxySettings)
        ensures
            self.uses_proxy() ==> {
                &&& proxy.url == Some(self.proxy_url)
                &&& proxy.username == self.proxy_username
                &&& proxy.password == self.proxy_password
            },
            !self.uses_proxy() ==> {
                &&& proxy.url.is_none()
                &&& proxy.username.is_none()
                &&& proxy.password.is_none()
            },
    {
        if self.proxy_enabled && !self.proxy_url.as_str().is_empty() {
            ProxySettings {
                url: Some(self.proxy_url.clone()),
                username: self.proxy_username.clone(),
                password: self.proxy_password.clone(),
            }
        } else {
            ProxySettings { url: None, username: None, password: None }
        }
    }
}

impl Default for AppConfig {
    fn default() -> (config: AppConfig)
        ensures
            config.is_default(),
    {
        AppConfig {
            disable_hook: false,
            auto_start: false,
            start_minimized: false,
            auto_check_update: default_true(),
            title_bar_height: default_title_bar_height(),
            proxy_enabled: false,
            proxy_url: String::new(),
            proxy_username: None,
            proxy_password: None,
        }
    }
}

} // verus!
