//! Connection profiles and the settings that hold them.
//!
//! Loading and saving the settings file is the surrounding application's
//! work; the profile bookkeeping itself is verified here.

use crate::errors::AppError;
use vstd::prelude::*;

verus! {

/// Whether a profile drives an export (one connection) or a migration (two).
#[derive(Debug, Clone, PartialEq, Eq, Structural)]
pub enum ProfileType {
    /// Single-connection export profile.
    Export,
    /// Dual-connection migration profile.
    Migration,
}

impl Default for ProfileType {
    /// Export is the default kind.
    fn default() -> (r: Self)
        ensures
            r == ProfileType::Export,
    {
        ProfileType::Export
    }
}

/// One server connection.
#[derive(Debug, Clone)]
pub struct ConnectionConfig {
    /// Server host name.
    pub fqdn: String,
    /// API username, required for SOAP operations.
    pub username: Option<String>,
    /// Target service organization id.
    pub service_org_id: Option<i64>,
}

impl Default for ConnectionConfig {
    /// An empty connection.
    fn default() -> (r: Self)
        ensures
            r.fqdn@ == Seq::<char>::empty(),
            r.username is None,
            r.service_org_id is None,
    {
        ConnectionConfig { fqdn: String::new(), username: None, service_org_id: None }
    }
}

/// A saved server profile.
#[derive(Debug, Clone)]
pub struct Profile {
    /// Profile name.
    pub name: String,
    /// Profile kind.
    pub profile_type: ProfileType,
    /// Source connection.
    pub source: ConnectionConfig,
    /// Destination connection, for migration profiles.
    pub destination: Option<ConnectionConfig>,
    /// Last-used timestamp text.
    pub last_used: Option<String>,
}

impl Profile {
    /// A fresh export profile for one server.
    pub fn new_export(name: &str, fqdn: &str) -> (r: Self)
        ensures
            r.name@ == name@,
            r.profile_type == ProfileType::Export,
            r.source.fqdn@ == fqdn@,
            r.source.username is None,
            r.source.service_org_id is None,
            r.destination is None,
            r.last_used is None,
    {
        Profile {
            name: name.to_owned(),
            profile_type: ProfileType::Export,
            source: ConnectionConfig {
                fqdn: fqdn.to_owned(),
                username: None,
                service_org_id: None,
            },
            destination: None,
            last_used: None,
        }
    }

    /// A fresh migration profile for a source and a destination server.
    pub fn new_migration(name: &str, source_fqdn: &str, dest_fqdn: &str) -> (r: Self)
        ensures
            r.name@ == name@,
            r.profile_type == ProfileType::Migration,
            r.source.fqdn@ == source_fqdn@,
            r.source.username is None,
            r.source.service_org_id is None,
            r.destination matches Some(d) && d.fqdn@ == dest_fqdn@ && d.username is None
                && d.service_org_id is None,
            r.last_used is None,
    {
        Profile {
            name: name.to_owned(),
            profile_type: ProfileType::Migration,
            source: ConnectionConfig {
                fqdn: source_fqdn.to_owned(),
                username: None,
                service_org_id: None,
            },
            destination: Some(
                ConnectionConfig {
                    fqdn: dest_fqdn.to_owned(),
                    username: None,
                    service_org_id: None,
                },
            ),
            last_used: None,
        }
    }

    /// The base address of the source server.
    pub fn base_url(&self) -> (r: String)
        ensures
            r@ == "https://"@ + self.source.fqdn@,
    {
        let mut r: String = "https://".to_owned();
        r.append(self.source.fqdn.as_str());
        r
    }
}

/// Window geometry kept across runs.
#[derive(Debug, Clone)]
pub struct WindowState {
    /// Window width.
    pub width: u32,
    /// Window height.
    pub height: u32,
    /// Horizontal position, when known.
    pub x: Option<i32>,
    /// Vertical position, when known.
    pub y: Option<i32>,
    /// Whether the window was maximized.
    pub maximized: bool,
}

impl Default for WindowState {
    /// The initial window geometry.
    fn default() -> (r: Self)
        ensures
            r.width == 950,
            r.height == 800,
            r.x is None,
            r.y is None,
            !r.maximized,
    {
        WindowState { width: 950, height: 800, x: None, y: None, maximized: false }
    }
}

/// The first profile of the list with the given name, if any.
pub open spec fn spec_profile_by_name(ps: Seq<Profile>, name: Seq<char>) -> Option<Profile>
    decreases ps.len(),
{
    if ps.len() == 0 {
        None
    } else if ps[0].name@ == name {
        Some(ps[0])
    } else {
        spec_profile_by_name(ps.skip(1), name)
    }
}

/// The profiles that do not carry the given name, in order.
pub open spec fn spec_drop_profile(ps: Seq<Profile>, name: Seq<char>) -> Seq<Profile>
    decreases ps.len(),
{
    if ps.len() == 0 {
        Seq::empty()
    } else {
        let rest = spec_drop_profile(ps.drop_last(), name);
        if ps.last().name@ == name {
            rest
        } else {
            rest.push(ps.last())
        }
    }
}

/// The saved application settings.
#[derive(Debug, Clone)]
pub struct Settings {
    /// The saved profiles.
    pub profiles: Vec<Profile>,
    /// Name of the active profile.
    pub active_profile: Option<String>,
    /// Default export directory.
    pub export_directory: Option<String>,
    /// Default export formats.
    pub export_formats: Vec<String>,
    /// Window geometry.
    pub window: WindowState,
}

impl Default for Settings {
    /// Fresh settings: no profiles, nothing active.
    fn default() -> (r: Self)
        ensures
            r.profiles@.len() == 0,
            r.active_profile is None,
            r.export_directory is None,
            r.export_formats@.len() == 0,
    {
        Settings {
            profiles: Vec::new(),
            active_profile: None,
            export_directory: None,
            export_formats: Vec::new(),
            window: WindowState::default(),
        }
    }
}

fn find_profile<'a>(ps: &'a Vec<Profile>, name: &String) -> (r: Option<&'a Profile>)
    ensures
        match r {
            Some(p) => spec_profile_by_name(ps@, name@) == Some(*p),
            None => spec_profile_by_name(ps@, name@) is None,
        },
{
    let ghost whole = ps@;
    assert(ps@.skip(0) =~= ps@);
    let mut i: usize = 0;
    while i < ps.len()
        invariant
            i <= ps@.len(),
            whole == ps@,
            spec_profile_by_name(whole, name@) == spec_profile_by_name(ps@.skip(i as int), name@),
        decreases ps@.len() - i,
    {
        assert(ps@.skip(i as int)[0] == ps@[i as int]);
        if ps[i].name == *name {
            return Some(&ps[i]);
        }
        assert(ps@.skip(i as int).skip(1) =~= ps@.skip(i + 1));
        i += 1;
    }
    assert(ps@.skip(i as int) =~= Seq::<Profile>::empty());
    None
}

impl Settings {
    /// The active profile, when one is named and saved.
    pub fn get_active_profile(&self) -> (r: Option<&Profile>)
        ensures
            match r {
                Some(p) => self.active_profile matches Some(name) && spec_profile_by_name(
                    self.profiles@,
                    name@,
                ) == Some(*p),
                None => match self.active_profile {
                    Some(name) => spec_profile_by_name(self.profiles@, name@) is None,
                    None => true,
                },
            },
    {
        match &self.active_profile {
            Some(name) => find_profile(&self.profiles, name),
            None => None,
        }
    }

    /// The position of the active profile in the list, when one is named
    /// and saved; callers use it to update the profile in place.
    pub fn active_profile_index(&self) -> (r: Option<usize>)
        ensures
            match r {
                Some(i) => i < self.profiles@.len() && (self.active_profile matches Some(name)
                    && spec_profile_by_name(self.profiles@, name@) == Some(
                    self.profiles@[i as int],
                )),
                None => match self.active_profile {
                    Some(name) => spec_profile_by_name(self.profiles@, name@) is None,
                    None => true,
                },
            },
    {
        let name: &String = match &self.active_profile {
            Some(name) => name,
            None => {
                return None;
            },
        };
        let ghost whole = self.profiles@;
        assert(self.profiles@.skip(0) =~= self.profiles@);
        let mut i: usize = 0;
        while i < self.profiles.len()
            invariant
                i <= self.profiles@.len(),
                whole == self.profiles@,
                self.active_profile == Some(*name),
                spec_profile_by_name(whole, name@) == spec_profile_by_name(
                    self.profiles@.skip(i as int),
                    name@,
                ),
            decreases self.profiles@.len() - i,
        {
            assert(self.profiles@.skip(i as int)[0] == self.profiles@[i as int]);
            if self.profiles[i].name == *name {
                assert(spec_profile_by_name(self.profiles@.skip(i as int), name@) == Some(
                    self.profiles@[i as int],
                ));
                return Some(i);
            }
            assert(self.profiles@.skip(i as int).skip(1) =~= self.profiles@.skip(i + 1));
            i += 1;
        }
        assert(self.profiles@.skip(i as int) =~= Seq::<Profile>::empty());
        None
    }

    /// Adds a profile, replacing any saved profile of the same name.
    pub fn add_profile(&mut self, profile: Profile)
        ensures
            final(self).profiles@ == spec_drop_profile(old(self).profiles@, profile.name@).push(
                profile,
            ),
            final(self).active_profile == old(self).active_profile,
            final(self).export_directory == old(self).export_directory,
            final(self).export_formats == old(self).export_formats,
            final(self).window == old(self).window,
    {
        let ghost orig = self.profiles@;
        let mut kept: Vec<Profile> = Vec::new();
        let ghost mut done: int = 0;
        assert(orig.take(0) =~= Seq::<Profile>::empty());
        assert(orig.skip(0) =~= orig);
        while self.profiles.len() > 0
            invariant
                0 <= done <= orig.len(),
                self.profiles@ == orig.skip(done),
                kept@ == spec_drop_profile(orig.take(done), profile.name@),
                self.active_profile == old(self).active_profile,
                self.export_directory == old(self).export_directory,
                self.export_formats == old(self).export_formats,
                self.window == old(self).window,
            decreases self.profiles@.len(),
        {
            let p = self.profiles.remove(0);
            proof {
                assert(p == orig[done]);
                assert(self.profiles@ =~= orig.skip(done + 1));
                assert(orig.take(done + 1).drop_last() =~= orig.take(done));
                assert(orig.take(done + 1).last() == orig[done]);
            }
            if !(p.name == profile.name) {
                kept.push(p);
            }
            proof {
                done = done + 1;
            }
        }
        assert(orig.take(done) =~= orig);
        kept.push(profile);
        self.profiles = kept;
    }

    /// Deletes the profile of that name; when it was the active one, the
    /// first remaining profile (if any) becomes active.
    pub fn delete_profile(&mut self, name: &str)
        ensures
            final(self).profiles@ == spec_drop_profile(old(self).profiles@, name@),
            final(self).export_directory == old(self).export_directory,
            final(self).export_formats == old(self).export_formats,
            final(self).window == old(self).window,
            match old(self).active_profile {
                Some(active) => {
                    if active@ == name@ {
                        (if final(self).profiles@.len() > 0 {
                            final(self).active_profile matches Some(n) && n@
                                == final(self).profiles@[0].name@
                        } else {
                            final(self).active_profile is None
                        })
                    } else {
                        final(self).active_profile == old(self).active_profile
                    }
                },
                None => final(self).active_profile == old(self).active_profile,
            },
    {
        let name_owned: String = name.to_owned();
        let ghost orig = self.profiles@;
        let mut kept: Vec<Profile> = Vec::new();
        let ghost mut done: int = 0;
        assert(orig.take(0) =~= Seq::<Profile>::empty());
        assert(orig.skip(0) =~= orig);
        while self.profiles.len() > 0
            invariant
                0 <= done <= orig.len(),
                self.profiles@ == orig.skip(done),
                kept@ == spec_drop_profile(orig.take(done), name_owned@),
                name_owned@ == name@,
                self.active_profile == old(self).active_profile,
                self.export_directory == old(self).export_directory,
                self.export_formats == old(self).export_formats,
                self.window == old(self).window,
            decreases self.profiles@.len(),
        {
            let p = self.profiles.remove(0);
            proof {
                assert(p == orig[done]);
                assert(self.profiles@ =~= orig.skip(done + 1));
                assert(orig.take(done + 1).drop_last() =~= orig.take(done));
                assert(orig.take(done + 1).last() == orig[done]);
            }
            if !(p.name == name_owned) {
                kept.push(p);
            }
            proof {
                done = done + 1;
            }
        }
        assert(orig.take(done) =~= orig);
        self.profiles = kept;
        let was_active: bool = match &self.active_profile {
            Some(active) => *active == name_owned,
            None => false,
        };
        if was_active {
            if self.profiles.len() > 0 {
                self.active_profile = Some(self.profiles[0].name.clone());
            } else {
                self.active_profile = None;
            }
        }
    }

    /// Makes the profile of that name active; unknown names are refused.
    pub fn set_active_profile(&mut self, name: &str) -> (r: Result<(), AppError>)
        ensures
            final(self).profiles == old(self).profiles,
            final(self).export_directory == old(self).export_directory,
            final(self).export_formats == old(self).export_formats,
            final(self).window == old(self).window,
            match r {
                Ok(_) => spec_profile_by_name(old(self).profiles@, name@) is Some && (final(self).active_profile matches Some(n) && n@ == name@),
                Err(e) => spec_profile_by_name(old(self).profiles@, name@) is None && e is Config
                    && final(self).active_profile == old(self).active_profile,
            },
    {
        let name_owned: String = name.to_owned();
        match find_profile(&self.profiles, &name_owned) {
            Some(_) => {
                self.active_profile = Some(name_owned);
                Ok(())
            },
            None => {
                let mut msg: String = "Profile '".to_owned();
                msg.append(name);
                msg.append("' not found");
                Err(AppError::Config(msg))
            },
        }
    }
}

} // verus!
