//! The settings store: the user's preferences as kept on disk.
//! Reading and writing the backing file is the application's work;
//! the defaults and the patch rules here are verified.

use vstd::prelude::*;

use crate::client::Proxy;
use crate::paths::{default_install_dir, spec_nvmd_home};
use crate::strlist::clone_opt_string;

verus! {

/// The user's preferences.
#[derive(Debug, Clone, Default)]
pub struct ISettings {
    /// What the window close button does: `minimize` or `close`.
    pub closer: Option<String>,
    /// The installation directory.
    pub directory: Option<String>,
    /// Whether the window stays hidden on launch.
    pub enable_silent_start: Option<bool>,
    /// The interface language.
    pub locale: Option<String>,
    /// The distribution mirror.
    pub mirror: Option<String>,
    /// An explicit proxy endpoint.
    pub proxy: Option<Proxy>,
    /// Whether to force direct connections.
    pub no_proxy: Option<bool>,
    /// The interface theme.
    pub theme: Option<String>,
}

/// Whether two optional proxies agree on every field.
pub open spec fn spec_proxy_opt_eq(a: Option<Proxy>, b: Option<Proxy>) -> bool {
    match (a, b) {
        (Some(x), Some(y)) => x.enabled == y.enabled && x.ip@ == y.ip@ && x.port@ == y.port@,
        (None, None) => true,
        _ => false,
    }
}

/// Copies an optional proxy endpoint.
pub fn clone_opt_proxy(o: &Option<Proxy>) -> (r: Option<Proxy>)
    ensures
        spec_proxy_opt_eq(r, *o),
{
    match o {
        Some(p) => Some(Proxy { enabled: p.enabled, ip: p.ip.clone(), port: p.port.clone() }),
        None => None,
    }
}

impl ISettings {
    /// Builds the store from the settings loaded from disk; a
    /// failed load falls back to the template for the given home
    /// directory.
    pub fn new(loaded: Option<ISettings>, home_dir: &str) -> (r: Self)
        ensures
            match loaded {
                Some(s) => r == s,
                None => spec_is_template(r, home_dir@),
            },
    {
        match loaded {
            Some(s) => s,
            None => ISettings::template(home_dir),
        }
    }

    /// The default settings for the given home directory.
    pub fn template(home_dir: &str) -> (r: Self)
        ensures
            spec_is_template(r, home_dir@),
    {
        ISettings {
            closer: None,
            directory: Some(default_install_dir(home_dir)),
            enable_silent_start: Some(false),
            locale: Some("en".to_owned()),
            mirror: Some("https://nodejs.org/dist".to_owned()),
            proxy: None,
            no_proxy: Some(false),
            theme: Some("system".to_owned()),
        }
    }

    /// The close-button behaviour.
    pub fn get_closer(&self) -> (r: Option<String>)
        ensures
            r.deep_view() == self.closer.deep_view(),
    {
        clone_opt_string(&self.closer)
    }

    /// The installation directory.
    pub fn get_directory(&self) -> (r: Option<String>)
        ensures
            r.deep_view() == self.directory.deep_view(),
    {
        clone_opt_string(&self.directory)
    }

    /// The distribution mirror.
    pub fn get_mirror(&self) -> (r: Option<String>)
        ensures
            r.deep_view() == self.mirror.deep_view(),
    {
        clone_opt_string(&self.mirror)
    }

    /// The explicit proxy endpoint.
    pub fn get_proxy(&self) -> (r: Option<Proxy>)
        ensures
            spec_proxy_opt_eq(r, self.proxy),
    {
        clone_opt_proxy(&self.proxy)
    }

    /// Whether direct connections are forced.
    pub fn get_no_proxy(&self) -> (r: Option<bool>)
        ensures
            r == self.no_proxy,
    {
        self.no_proxy
    }

    /// Overlays the given patch: every field the patch sets
    /// replaces the stored one, every unset field keeps it.
    pub fn patch_settings(&mut self, patch: ISettings) -> (r: Result<(), crate::errors::StoreError>)
        ensures
            r is Ok,
            final(self).closer == if patch.closer is Some {
                patch.closer
            } else {
                old(self).closer
            },
            final(self).directory == if patch.directory is Some {
                patch.directory
            } else {
                old(self).directory
            },
            final(self).enable_silent_start == if patch.enable_silent_start is Some {
                patch.enable_silent_start
            } else {
                old(self).enable_silent_start
            },
            final(self).locale == if patch.locale is Some {
                patch.locale
            } else {
                old(self).locale
            },
            final(self).mirror == if patch.mirror is Some {
                patch.mirror
            } else {
                old(self).mirror
            },
            final(self).proxy == if patch.proxy is Some {
                patch.proxy
            } else {
                old(self).proxy
            },
            final(self).no_proxy == if patch.no_proxy is Some {
                patch.no_proxy
            } else {
                old(self).no_proxy
            },
            final(self).theme == if patch.theme is Some {
                patch.theme
            } else {
                old(self).theme
            },
    {
        if patch.closer.is_some() {
            self.closer = patch.closer;
        }
        if patch.directory.is_some() {
            self.directory = patch.directory;
        }
        if patch.enable_silent_start.is_some() {
            self.enable_silent_start = patch.enable_silent_start;
        }
        if patch.locale.is_some() {
            self.locale = patch.locale;
        }
        if patch.mirror.is_some() {
            self.mirror = patch.mirror;
        }
        if patch.proxy.is_some() {
            self.proxy = patch.proxy;
        }
        if patch.no_proxy.is_some() {
            self.no_proxy = patch.no_proxy;
        }
        if patch.theme.is_some() {
            self.theme = patch.theme;
        }
        Ok(())
    }
}

/// What the template promises: the default install directory under
/// the home, silent start off, English locale, the upstream mirror,
/// no proxy, the system theme, and no close-button override.
pub open spec fn spec_is_template(s: ISettings, home: Seq<char>) -> bool {
    &&& s.closer is None
    &&& s.directory matches Some(d) && d@ == spec_nvmd_home(home) + seq!['/'] + "versions"@
    &&& s.enable_silent_start == Some(false)
    &&& s.locale matches Some(l) && l@ == "en"@
    &&& s.mirror matches Some(m) && m@ == "https://nodejs.org/dist"@
    &&& s.proxy is None
    &&& s.no_proxy == Some(false)
    &&& s.theme matches Some(t) && t@ == "system"@
}

} // verus!
