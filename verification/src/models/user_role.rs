//! User roles and the permission-name lookup table.

use crate::idmap::NameMap;
use vstd::prelude::*;

verus! {

/// Extra role fields: permission names, member names, flags.
#[derive(Debug, Clone)]
pub struct UserRoleExtra {
    /// Whether the role is read-only (a system role).
    pub readonly: Option<String>,
    /// Permission names assigned to this role.
    pub permissions: Vec<String>,
    /// Login names assigned to this role.
    pub usernames: Vec<String>,
    /// Whether the role can be cloned.
    pub cloneable: Option<String>,
}

/// A user role.
#[derive(Debug, Clone)]
pub struct UserRole {
    /// Numeric identifier.
    pub role_id: i64,
    /// Display name.
    pub role_name: Option<String>,
    /// Free-text description.
    pub role_description: Option<String>,
    /// Extra fields, when the server sent them.
    pub extra: Option<UserRoleExtra>,
}

impl UserRole {
    /// The permission names of this role; empty when the server sent no
    /// extra fields.
    pub fn get_permissions(&self) -> (r: Vec<String>)
        ensures
            r@ == match self.extra {
                Some(e) => e.permissions@,
                None => Seq::<String>::empty(),
            },
    {
        match &self.extra {
            Some(e) => crate::text::clone_strings(&e.permissions),
            None => Vec::new(),
        }
    }
}

/// The character sequences of a run of strings.
pub open spec fn str_views(s: Seq<String>) -> Seq<Seq<char>> {
    s.map_values(|x: String| x@)
}

/// The ids of the names found in `m`, in input order; unknown names are
/// dropped.
pub open spec fn spec_names_to_ids(m: Map<Seq<char>, i64>, names: Seq<Seq<char>>) -> Seq<i64>
    decreases names.len(),
{
    if names.len() == 0 {
        Seq::empty()
    } else {
        let rest = spec_names_to_ids(m, names.drop_last());
        if m.contains_key(names.last()) {
            rest.push(m[names.last()])
        } else {
            rest
        }
    }
}


/// A CSV field cleaned the way the reference dataset is read: surrounding
/// white space, then surrounding quotes, removed.
pub open spec fn spec_clean_field(p: Seq<char>) -> Seq<char> {
    crate::text::spec_trim_char(crate::text::spec_trim(p), '"')
}

/// The permission table a run of CSV data lines denotes: each line with at
/// least three comma-separated fields whose second field parses as an
/// integer contributes its third field as a name for that id.
pub open spec fn spec_perm_table(lines: Seq<Seq<char>>) -> Map<Seq<char>, i64>
    decreases lines.len(),
{
    if lines.len() == 0 {
        Map::empty()
    } else {
        let rest = spec_perm_table(lines.drop_last());
        let parts = crate::text::spec_split(lines.last(), ',');
        if parts.len() >= 3 {
            match crate::text::spec_parse_i64(spec_clean_field(parts[1])) {
                Some(v) => rest.insert(spec_clean_field(parts[2]), v as i64),
                None => rest,
            }
        } else {
            rest
        }
    }
}

/// The data lines of a CSV text: everything after the header line.
pub open spec fn spec_csv_data_lines(s: Seq<char>) -> Seq<Seq<char>> {
    let ls = crate::text::spec_lines(s);
    if ls.len() >= 1 {
        ls.skip(1)
    } else {
        ls
    }
}

/// A permission-name to permission-id table, loaded from a reference
/// dataset.
#[derive(Debug, Clone)]
pub struct PermissionLookup {
    /// The name-to-id table.
    pub name_to_id: NameMap,
}

impl PermissionLookup {
    /// The table is well formed.
    pub open spec fn wf(self) -> bool {
        self.name_to_id.wf()
    }

    /// The map this table denotes.
    pub open spec fn as_map(self) -> Map<Seq<char>, i64> {
        self.name_to_id.as_map()
    }

    /// An empty lookup.
    pub fn new() -> (r: Self)
        ensures
            r.wf(),
            r.as_map() == Map::<Seq<char>, i64>::empty(),
    {
        PermissionLookup { name_to_id: NameMap::new() }
    }


    /// Loads the permission table from CSV text: the header line is
    /// skipped, and each remaining line's quoted second and third fields
    /// become an id and its name.
    pub fn from_csv(csv_content: &str) -> (r: Self)
        ensures
            r.wf(),
            r.as_map() == spec_perm_table(spec_csv_data_lines(csv_content@)),
    {
        let cs = crate::text::chars_of(csv_content);
        let lines = crate::text::lines_of(cs.as_slice());
        let ghost tail = spec_csv_data_lines(csv_content@);
        let mut lookup = PermissionLookup::new();
        if lines.len() <= 1 {
            assert(tail =~= Seq::<Seq<char>>::empty());
            assert(lookup.as_map() =~= spec_perm_table(tail));
            return lookup;
        }
        proof {
            assert(crate::text::views(lines@).skip(1) =~= tail);
        }
        let mut i: usize = 1;
        while i < lines.len()
            invariant
                1 <= i <= lines@.len(),
                crate::text::views(lines@).skip(1) == tail,
                tail.len() == lines@.len() - 1,
                lookup.wf(),
                lookup.as_map() == spec_perm_table(tail.take(i - 1)),
            decreases lines@.len() - i,
        {
            assert(tail[i - 1] == crate::text::views(lines@)[i as int]);
            assert(crate::text::views(lines@)[i as int] == lines@[i as int]@);
            let parts = crate::text::split_chars(lines[i].as_slice(), ',');
            let ghost pv = crate::text::spec_split(lines@[i as int]@, ',');
            if parts.len() >= 3 {
                assert(pv[1] == parts@[1]@ && pv[2] == parts@[2]@) by {
                    assert(crate::text::views(parts@)[1] == parts@[1]@);
                    assert(crate::text::views(parts@)[2] == parts@[2]@);
                }
                let id_trimmed = crate::text::trim_chars(parts[1].as_slice());
                let id_text = crate::text::trim_char(id_trimmed.as_slice(), '"');
                let name_trimmed = crate::text::trim_chars(parts[2].as_slice());
                let name_text = crate::text::trim_char(name_trimmed.as_slice(), '"');
                match crate::text::parse_i64(id_text.as_slice()) {
                    Some(v) => {
                        let name = crate::text::string_of(name_text.as_slice());
                        lookup.name_to_id.insert(name, v);
                    },
                    None => {},
                }
            }
            proof {
                assert(tail.take(i as int).drop_last() =~= tail.take(i - 1));
                assert(tail.take(i as int).last() == tail[i - 1]);
            }
            i += 1;
        }
        assert(tail.take(lines@.len() - 1) =~= tail);
        lookup
    }

    /// The permission id for `name`, if known.
    pub fn get_id(&self, name: &String) -> (r: Option<i64>)
        requires
            self.wf(),
        ensures
            r == if self.as_map().contains_key(name@) {
                Some(self.as_map()[name@])
            } else {
                None::<i64>
            },
    {
        self.name_to_id.get(name)
    }

    /// Translates permission names to ids, dropping unknown names.
    pub fn names_to_ids(&self, names: &[String]) -> (r: Vec<i64>)
        requires
            self.wf(),
        ensures
            r@ == spec_names_to_ids(self.as_map(), str_views(names@)),
    {
        let ghost nv = str_views(names@);
        let mut r: Vec<i64> = Vec::new();
        let mut i: usize = 0;
        while i < names.len()
            invariant
                i <= names@.len(),
                self.wf(),
                nv == str_views(names@),
                r@ == spec_names_to_ids(self.as_map(), nv.take(i as int)),
            decreases names@.len() - i,
        {
            assert(nv[i as int] == names@[i as int]@);
            assert(nv.take(i + 1).drop_last() =~= nv.take(i as int));
            assert(nv.take(i + 1).last() == nv[i as int]);
            match self.name_to_id.get(&names[i]) {
                Some(id) => {
                    r.push(id);
                },
                None => {},
            }
            i += 1;
        }
        assert(nv.take(names@.len() as int) =~= nv);
        r
    }

    /// Whether the table holds nothing.
    pub fn is_empty(&self) -> (r: bool)
        requires
            self.wf(),
        ensures
            r <==> self.as_map() == Map::<Seq<char>, i64>::empty(),
    {
        self.name_to_id.is_empty()
    }
}

} // verus!
