//! The registry of contributors: who may author entries, who is enabled, and
//! who is the current author.

use vstd::prelude::*;
use crate::text::chars_of;
use crate::text::joined;
use crate::text::same_text;
use crate::text::text_of_range;
use crate::timestamp::Timestamp;

verus! {

/// The message given where a command is run outside a repository.
pub open spec fn not_a_repo_message() -> Seq<char> {
    "Not a GitEHR repository (or not in the repository root)."@
}

/// Fails where the working directory is no repository.
pub fn require_repo(is_repo: bool) -> (r: Result<(), String>)
    ensures
        is_repo ==> r is Ok,
        !is_repo ==> r is Err && r->Err_0@ == not_a_repo_message(),
{
    if is_repo {
        Ok(())
    } else {
        Err("Not a GitEHR repository (or not in the repository root).".to_owned())
    }
}

/// A copy of an optional string.
pub fn clone_opt(o: &Option<String>) -> (r: Option<String>)
    ensures
        crate::entry::opt_text(r) == crate::entry::opt_text(*o),
{
    match o {
        Some(s) => Some(s.clone()),
        None => None,
    }
}

/// An optional string of an optional text.
pub fn owned_opt(o: Option<&str>) -> (r: Option<String>)
    ensures
        match o {
            Some(s) => r is Some && r->0@ == s@,
            None => r is None,
        },
{
    match o {
        Some(s) => Some(s.to_owned()),
        None => None,
    }
}

/// Someone who may author entries.
#[derive(Debug, Clone)]
pub struct Contributor {
    pub id: String,
    pub name: String,
    pub role: Option<String>,
    pub email: Option<String>,
    pub public_key: Option<String>,
    pub enabled: bool,
    pub active: bool,
    pub added_at: String,
}

/// The mathematical value of a [`Contributor`].
pub struct ContributorView {
    pub id: Seq<char>,
    pub name: Seq<char>,
    pub role: Option<Seq<char>>,
    pub email: Option<Seq<char>>,
    pub public_key: Option<Seq<char>>,
    pub enabled: bool,
    pub active: bool,
    pub added_at: Seq<char>,
}

impl View for Contributor {
    type V = ContributorView;

    open spec fn view(&self) -> ContributorView {
        ContributorView {
            id: self.id@,
            name: self.name@,
            role: crate::entry::opt_text(self.role),
            email: crate::entry::opt_text(self.email),
            public_key: crate::entry::opt_text(self.public_key),
            enabled: self.enabled,
            active: self.active,
            added_at: self.added_at@,
        }
    }
}

impl ContributorView {
    /// The same contributor with other flags.
    pub open spec fn with_flags(self, enabled: bool, active: bool) -> ContributorView {
        ContributorView { enabled, active, ..self }
    }
}

impl Contributor {
    /// A copy with other flags.
    pub fn with_flags(&self, enabled: bool, active: bool) -> (r: Contributor)
        ensures
            r@ == self@.with_flags(enabled, active),
    {
        Contributor {
            id: self.id.clone(),
            name: self.name.clone(),
            role: clone_opt(&self.role),
            email: clone_opt(&self.email),
            public_key: clone_opt(&self.public_key),
            enabled,
            active,
            added_at: self.added_at.clone(),
        }
    }
}

/// The views of a vector of contributors.
pub open spec fn contributor_views(v: Vec<Contributor>) -> Seq<ContributorView> {
    Seq::new(v.len() as nat, |i: int| v[i]@)
}

/// The contributors, and the id of the current one.
#[derive(Debug, Clone)]
pub struct ContributorConfig {
    pub contributors: Vec<Contributor>,
    pub current_contributor: Option<String>,
}

/// The mathematical value of a [`ContributorConfig`].
pub struct ConfigView {
    pub contributors: Seq<ContributorView>,
    pub current_contributor: Option<Seq<char>>,
}

impl View for ContributorConfig {
    type V = ConfigView;

    open spec fn view(&self) -> ConfigView {
        ConfigView {
            contributors: contributor_views(self.contributors),
            current_contributor: crate::entry::opt_text(self.current_contributor),
        }
    }
}

impl ConfigView {
    /// Whether a contributor has the id `id`.
    pub open spec fn has(self, id: Seq<char>) -> bool {
        exists|i: int| 0 <= i < self.contributors.len() && (#[trigger] self.contributors[i]).id == id
    }

    /// Whether a contributor with the id `id` is enabled.
    pub open spec fn has_enabled(self, id: Seq<char>) -> bool {
        exists|i: int|
            0 <= i < self.contributors.len() && (#[trigger] self.contributors[i]).id == id
                && self.contributors[i].enabled
    }

    /// Whether no two contributors have one id.
    pub open spec fn distinct(self) -> bool {
        forall|i: int, j: int|
            0 <= i < j < self.contributors.len() ==> (#[trigger] self.contributors[i]).id != (
            #[trigger] self.contributors[j]).id
    }

    /// The contributors with `enabled` set for those of the id `id`.
    pub open spec fn enabled_set(self, id: Seq<char>, enabled: bool) -> Seq<ContributorView> {
        Seq::new(
            self.contributors.len(),
            |i: int|
                if self.contributors[i].id == id {
                    self.contributors[i].with_flags(enabled, enabled && self.contributors[i].active)
                } else {
                    self.contributors[i]
                },
        )
    }

    /// The contributors with nobody active but those of the id `id`.
    pub open spec fn only_active(self, id: Option<Seq<char>>) -> Seq<ContributorView> {
        Seq::new(
            self.contributors.len(),
            |i: int|
                self.contributors[i].with_flags(
                    self.contributors[i].enabled,
                    id == Some(self.contributors[i].id),
                ),
        )
    }
}

/// `'` and an id and `'` between two texts.
pub open spec fn about_user(before: Seq<char>, id: Seq<char>, after: Seq<char>) -> Seq<char> {
    before + id + after
}

fn user_message(before: &str, id: &str, after: &str) -> (r: String)
    ensures
        r@ == about_user(before@, id@, after@),
{
    let a = joined(before, id);
    joined(a.as_str(), after)
}

impl ContributorConfig {
    /// A registry without contributors.
    pub fn new() -> (r: ContributorConfig)
        ensures
            r@.contributors.len() == 0,
            r@.current_contributor is None,
    {
        ContributorConfig { contributors: Vec::new(), current_contributor: None }
    }

    /// Whether a contributor has the id `id`.
    pub fn contains(&self, id: &str) -> (r: bool)
        ensures
            r == self@.has(id@),
    {
        let mut i: usize = 0;
        while i < self.contributors.len()
            invariant
                i <= self.contributors.len(),
                forall|k: int| 0 <= k < i ==> (#[trigger] self@.contributors[k]).id != id@,
            decreases self.contributors.len() - i,
        {
            if same_text(self.contributors[i].id.as_str(), id) {
                assert(self@.contributors[i as int].id == id@);
                return true;
            }
            i += 1;
        }
        false
    }

    /// Whether a contributor with the id `id` is enabled.
    pub fn contains_enabled(&self, id: &str) -> (r: bool)
        ensures
            r == self@.has_enabled(id@),
    {
        let mut i: usize = 0;
        while i < self.contributors.len()
            invariant
                i <= self.contributors.len(),
                forall|k: int|
                    0 <= k < i ==> !((#[trigger] self@.contributors[k]).id == id@
                        && self@.contributors[k].enabled),
            decreases self.contributors.len() - i,
        {
            if same_text(self.contributors[i].id.as_str(), id) && self.contributors[i].enabled {
                assert(self@.contributors[i as int].id == id@ && self@.contributors[i as int].enabled);
                return true;
            }
            i += 1;
        }
        false
    }

    /// Sets `enabled` for the contributors of the id `id`; who is disabled is
    /// not active either.
    fn set_enabled(&mut self, id: &str, enabled: bool)
        ensures
            final(self)@.contributors == old(self)@.enabled_set(id@, enabled),
            final(self)@.current_contributor == old(self)@.current_contributor,
    {
        let ghost before = self@;
        let mut out: Vec<Contributor> = Vec::new();
        let mut i: usize = 0;
        while i < self.contributors.len()
            invariant
                i <= self.contributors.len(),
                self@ == before,
                out.len() == i,
                forall|k: int| 0 <= k < i ==> (#[trigger] out[k])@ == before.enabled_set(id@, enabled)[k],
            decreases self.contributors.len() - i,
        {
            let c = &self.contributors[i];
            if same_text(c.id.as_str(), id) {
                out.push(c.with_flags(enabled, enabled && c.active));
            } else {
                out.push(c.with_flags(c.enabled, c.active));
            }
            i += 1;
        }
        self.contributors = out;
    }

    /// Leaves nobody active but the contributors of the id `id`.
    fn set_only_active(&mut self, id: Option<&str>)
        ensures
            final(self)@.contributors == old(self)@.only_active(
                match id {
                    Some(s) => Some(s@),
                    None => None,
                },
            ),
            final(self)@.current_contributor == old(self)@.current_contributor,
    {
        let ghost before = self@;
        let ghost wanted = match id {
            Some(s) => Some(s@),
            None => None,
        };
        let mut out: Vec<Contributor> = Vec::new();
        let mut i: usize = 0;
        while i < self.contributors.len()
            invariant
                i <= self.contributors.len(),
                self@ == before,
                wanted == match id {
                    Some(s) => Some(s@),
                    None => None,
                },
                out.len() == i,
                forall|k: int| 0 <= k < i ==> (#[trigger] out[k])@ == before.only_active(wanted)[k],
            decreases self.contributors.len() - i,
        {
            let c = &self.contributors[i];
            let active = match id {
                Some(s) => same_text(c.id.as_str(), s),
                None => false,
            };
            out.push(c.with_flags(c.enabled, active));
            i += 1;
        }
        self.contributors = out;
    }
}

/// The id of the current contributor, if the registry could be read and
/// names one.
pub fn get_current_contributor(config: Option<&ContributorConfig>) -> (r: Option<String>)
    ensures
        crate::entry::opt_text(r) == match config {
            Some(c) => c@.current_contributor,
            None => None,
        },
{
    match config {
        Some(c) => clone_opt(&c.current_contributor),
        None => None,
    }
}

/// The first contributor of an id, as an author: id, name and role.
pub open spec fn author_from(
    contributors: Seq<ContributorView>,
    id: Seq<char>,
    from: int,
) -> Option<crate::entry::AuthorView>
    decreases contributors.len() - from,
{
    if from < 0 || from >= contributors.len() {
        None
    } else if contributors[from].id == id {
        Some(
            crate::entry::AuthorView {
                id: contributors[from].id,
                name: contributors[from].name,
                role: contributors[from].role,
            },
        )
    } else {
        author_from(contributors, id, from + 1)
    }
}

/// The author that entries are written under: the current contributor as
/// the registry knows them now; none where there is no current contributor,
/// or none of that id.
pub open spec fn current_author_spec(config: ConfigView) -> Option<crate::entry::AuthorView> {
    match config.current_contributor {
        Some(id) => author_from(config.contributors, id, 0),
        None => None,
    }
}

/// The author that entries are written under.
pub fn current_author(config: &ContributorConfig) -> (r: Option<crate::entry::AuthorInfo>)
    ensures
        match r {
            Some(a) => current_author_spec(config@) == Some(a@),
            None => current_author_spec(config@) is None,
        },
{
    let id = match &config.current_contributor {
        Some(id) => id,
        None => {
            return None;
        },
    };
    let mut i: usize = 0;
    while i < config.contributors.len()
        invariant
            i <= config.contributors.len(),
            config@.current_contributor == Some(id@),
            author_from(config@.contributors, id@, 0) == author_from(
                config@.contributors,
                id@,
                i as int,
            ),
        decreases config.contributors.len() - i,
    {
        let c = &config.contributors[i];
        if same_text(c.id.as_str(), id.as_str()) {
            return Some(
                crate::entry::AuthorInfo {
                    id: c.id.clone(),
                    name: c.name.clone(),
                    role: clone_opt(&c.role),
                },
            );
        }
        i += 1;
    }
    None
}

/// Adds a contributor, enabled and not active, unless the id is taken.
pub fn add_contributor(
    config: &mut ContributorConfig,
    id: &str,
    name: &str,
    role: Option<&str>,
    email: Option<&str>,
    public_key: Option<&str>,
    added_at: &Timestamp,
) -> (r: Result<(), String>)
    ensures
        old(config)@.has(id@) ==> r is Err && r->Err_0@ == about_user(
            "User '"@,
            id@,
            "' already exists."@,
        ) && final(config)@ == old(config)@,
        !old(config)@.has(id@) ==> r is Ok && final(config)@.current_contributor == old(
            config,
        )@.current_contributor && final(config)@.contributors == old(config)@.contributors.push(
            ContributorView {
                id: id@,
                name: name@,
                role: match role {
                    Some(s) => Some(s@),
                    None => None,
                },
                email: match email {
                    Some(s) => Some(s@),
                    None => None,
                },
                public_key: match public_key {
                    Some(s) => Some(s@),
                    None => None,
                },
                enabled: true,
                active: false,
                added_at: added_at@.header_stamp(),
            },
        ),
        old(config)@.distinct() ==> final(config)@.distinct(),
{
    if config.contains(id) {
        return Err(user_message("User '", id, "' already exists."));
    }
    let c = Contributor {
        id: id.to_owned(),
        name: name.to_owned(),
        role: owned_opt(role),
        email: owned_opt(email),
        public_key: owned_opt(public_key),
        enabled: true,
        active: false,
        added_at: added_at.header_stamp(),
    };
    config.contributors.push(c);
    Ok(())
}

/// Enables a contributor.
pub fn enable_contributor(config: &mut ContributorConfig, id: &str) -> (r: Result<(), String>)
    ensures
        !old(config)@.has(id@) ==> r is Err && r->Err_0@ == about_user(
            "User '"@,
            id@,
            "' not found."@,
        ) && final(config)@ == old(config)@,
        old(config)@.has(id@) ==> r is Ok && final(config)@.contributors == old(
            config,
        )@.enabled_set(id@, true) && final(config)@.current_contributor == old(
            config,
        )@.current_contributor,
{
    if !config.contains(id) {
        return Err(user_message("User '", id, "' not found."));
    }
    config.set_enabled(id, true);
    Ok(())
}

/// Disables a contributor, who is then not active either.
pub fn disable_contributor(config: &mut ContributorConfig, id: &str) -> (r: Result<(), String>)
    ensures
        !old(config)@.has(id@) ==> r is Err && r->Err_0@ == about_user(
            "User '"@,
            id@,
            "' not found."@,
        ) && final(config)@ == old(config)@,
        old(config)@.has(id@) ==> r is Ok && final(config)@.contributors == old(
            config,
        )@.enabled_set(id@, false) && final(config)@.current_contributor == old(
            config,
        )@.current_contributor,
{
    if !config.contains(id) {
        return Err(user_message("User '", id, "' not found."));
    }
    config.set_enabled(id, false);
    Ok(())
}

/// Makes an enabled contributor the current author, and nobody else active.
pub fn activate_contributor(config: &mut ContributorConfig, id: &str) -> (r: Result<(), String>)
    ensures
        !old(config)@.has(id@) ==> r is Err && r->Err_0@ == about_user(
            "User '"@,
            id@,
            "' not found."@,
        ) && final(config)@ == old(config)@,
        old(config)@.has(id@) && !old(config)@.has_enabled(id@) ==> r is Err && r->Err_0@
            == about_user("User '"@, id@, "' is disabled. Enable it first."@) && final(config)@
            == old(config)@,
        old(config)@.has_enabled(id@) ==> r is Ok && final(config)@.contributors == old(
            config,
        )@.only_active(Some(id@)) && final(config)@.current_contributor == Some(id@),
{
    if !config.contains(id) {
        return Err(user_message("User '", id, "' not found."));
    }
    if !config.contains_enabled(id) {
        return Err(user_message("User '", id, "' is disabled. Enable it first."));
    }
    config.set_only_active(Some(id));
    config.current_contributor = Some(id.to_owned());
    Ok(())
}

/// Leaves nobody active and no current author.
pub fn deactivate_contributor(config: &mut ContributorConfig)
    ensures
        final(config)@.contributors == old(config)@.only_active(None),
        final(config)@.current_contributor is None,
{
    config.set_only_active(None);
    config.current_contributor = None;
}

/// An ASCII letter or digit.
pub open spec fn is_ascii_alnum(c: char) -> bool {
    let n = c as u32;
    (0x30 <= n <= 0x39) || (0x41 <= n <= 0x5A) || (0x61 <= n <= 0x7A)
}

/// The character with an ASCII capital made small.
pub open spec fn ascii_lower(c: char) -> char {
    let n = c as u32;
    if 0x41 <= n <= 0x5A {
        ((n + 32) as u8) as char
    } else {
        c
    }
}

/// Whether a character is an ASCII letter or digit.
pub fn char_is_ascii_alnum(c: char) -> (r: bool)
    ensures
        r == is_ascii_alnum(c),
{
    let n: u32 = c as u32;
    (0x30 <= n && n <= 0x39) || (0x41 <= n && n <= 0x5A) || (0x61 <= n && n <= 0x7A)
}

/// The character with an ASCII capital made small.
pub fn char_ascii_lower(c: char) -> (r: char)
    ensures
        r == ascii_lower(c),
{
    let n: u32 = c as u32;
    if 0x41 <= n && n <= 0x5A {
        let m: u8 = (n + 32) as u8;
        m as char
    } else {
        c
    }
}

/// The slug of the first `n` characters, before hyphens are cut off its
/// ends, and whether it ends with a hyphen that stands for other characters:
/// letters and digits are kept, small; each run of other characters becomes
/// one hyphen.
pub open spec fn slug_run(s: Seq<char>, n: int) -> (Seq<char>, bool)
    decreases n,
{
    if n <= 0 {
        (Seq::empty(), false)
    } else {
        let before = slug_run(s, n - 1);
        if is_ascii_alnum(s[n - 1]) {
            (before.0.push(ascii_lower(s[n - 1])), false)
        } else if !before.1 {
            (before.0.push('-'), true)
        } else {
            before
        }
    }
}

/// The index of the first character from `i` on that is not `c`.
pub open spec fn skip_char(s: Seq<char>, c: char, i: int) -> int
    decreases s.len() - i,
{
    if i < 0 || i >= s.len() {
        s.len() as int
    } else if s[i] == c {
        skip_char(s, c, i + 1)
    } else {
        i
    }
}

/// The end of what is left of `s[..j]` once the `c` at its end are gone, but
/// not less than `lo`.
pub open spec fn drop_char(s: Seq<char>, c: char, lo: int, j: int) -> int
    decreases j,
{
    if j <= lo || j <= 0 || j > s.len() {
        lo
    } else if s[j - 1] == c {
        drop_char(s, c, lo, j - 1)
    } else {
        j
    }
}

/// The text without the `c` at its start and at its end.
pub open spec fn trim_char(s: Seq<char>, c: char) -> Seq<char> {
    let lo = skip_char(s, c, 0);
    s.subrange(lo, drop_char(s, c, lo, s.len() as int))
}

/// The slug of a text: its letters and digits, small, with one hyphen for
/// each run of other characters between them.
pub open spec fn slugify_spec(s: Seq<char>) -> Seq<char> {
    trim_char(slug_run(s, s.len() as int).0, '-')
}

/// The slug of a text.
pub fn slugify(input: &str) -> (r: String)
    ensures
        r@ == slugify_spec(input@),
{
    let x = chars_of(input);
    let mut out: Vec<char> = Vec::new();
    let mut last_dash = false;
    let mut i: usize = 0;
    while i < x.len()
        invariant
            i <= x.len(),
            x@ == input@,
            slug_run(input@, i as int) == (out@, last_dash),
        decreases x.len() - i,
    {
        if char_is_ascii_alnum(x[i]) {
            out.push(char_ascii_lower(x[i]));
            last_dash = false;
        } else if !last_dash {
            out.push('-');
            last_dash = true;
        }
        i += 1;
    }
    let n = out.len();
    let mut lo: usize = 0;
    while lo < n && out[lo] == '-'
        invariant
            lo <= n,
            n == out.len(),
            skip_char(out@, '-', 0) == skip_char(out@, '-', lo as int),
        decreases n - lo,
    {
        lo += 1;
    }
    let mut hi: usize = n;
    while hi > lo && out[hi - 1] == '-'
        invariant
            lo <= hi <= n,
            n == out.len(),
            drop_char(out@, '-', lo as int, n as int) == drop_char(out@, '-', lo as int, hi as int),
        decreases hi,
    {
        hi -= 1;
    }
    text_of_range(&out, lo, hi)
}

/// The hexadecimal digit of a number below 16.
pub open spec fn hex_digit(d: int) -> char {
    if d == 0 { '0' } else if d == 1 { '1' } else if d == 2 { '2' } else if d == 3 { '3' }
    else if d == 4 { '4' } else if d == 5 { '5' } else if d == 6 { '6' } else if d == 7 { '7' }
    else if d == 8 { '8' } else if d == 9 { '9' } else if d == 10 { 'a' } else if d == 11 { 'b' }
    else if d == 12 { 'c' } else if d == 13 { 'd' } else if d == 14 { 'e' } else { 'f' }
}

/// A number below 65536 in four hexadecimal digits.
pub open spec fn hex4(n: int) -> Seq<char> {
    seq![
        hex_digit(n / 4096),
        hex_digit((n / 256) % 16),
        hex_digit((n / 16) % 16),
        hex_digit(n % 16),
    ]
}

fn hex_digit_of(d: u16) -> (r: char)
    requires
        d < 16,
    ensures
        r == hex_digit(d as int),
{
    if d == 0 { '0' } else if d == 1 { '1' } else if d == 2 { '2' } else if d == 3 { '3' }
    else if d == 4 { '4' } else if d == 5 { '5' } else if d == 6 { '6' } else if d == 7 { '7' }
    else if d == 8 { '8' } else if d == 9 { '9' } else if d == 10 { 'a' } else if d == 11 { 'b' }
    else if d == 12 { 'c' } else if d == 13 { 'd' } else if d == 14 { 'e' } else { 'f' }
}

/// The id that is tried where the base id is taken: the base, a hyphen, and
/// the suffix in four hexadecimal digits.
pub open spec fn candidate_spec(base: Seq<char>, suffix: u16) -> Seq<char> {
    base + seq!['-'] + hex4(suffix as int)
}

/// The id that is tried where the base id is taken.
pub fn user_id_candidate(base: &str, suffix: u16) -> (r: String)
    ensures
        r@ == candidate_spec(base@, suffix),
{
    let mut out = base.to_owned();
    out.push('-');
    out.push(hex_digit_of(suffix / 4096));
    out.push(hex_digit_of((suffix / 256) % 16));
    out.push(hex_digit_of((suffix / 16) % 16));
    out.push(hex_digit_of(suffix % 16));
    out
}

/// The index of the first `c` from `i` on, or the length where there is none.
pub open spec fn index_of(s: Seq<char>, c: char, i: int) -> int
    decreases s.len() - i,
{
    if i < 0 || i >= s.len() {
        s.len() as int
    } else if s[i] == c {
        i
    } else {
        index_of(s, c, i + 1)
    }
}

/// The id that a new user gets before it is held against the registry: the
/// slug of what stands before the `@` of the email address, or of the name
/// where nothing stands there, or `user` where the slug is empty.
pub open spec fn base_id_spec(name: Seq<char>, email: Seq<char>) -> Seq<char> {
    let local = email.subrange(0, index_of(email, '@', 0));
    let slug = if local.len() > 0 {
        slugify_spec(local)
    } else {
        slugify_spec(name)
    };
    if slug.len() == 0 {
        "user"@
    } else {
        slug
    }
}

/// The id that a new user gets before it is held against the registry.
pub fn base_user_id(name: &str, email: &str) -> (r: String)
    ensures
        r@ == base_id_spec(name@, email@),
{
    let e = chars_of(email);
    let mut i: usize = 0;
    while i < e.len() && e[i] != '@'
        invariant
            i <= e.len(),
            index_of(e@, '@', 0) == index_of(e@, '@', i as int),
        decreases e.len() - i,
    {
        i += 1;
    }
    let local = text_of_range(&e, 0, i);
    let slug = if !local.as_str().is_empty() {
        slugify(local.as_str())
    } else {
        slugify(name)
    };
    if slug.as_str().is_empty() {
        "user".to_owned()
    } else {
        slug
    }
}

/// The id of a new user: the base id where it is free, else the candidate
/// with the given suffix where that is free, else none, and another suffix
/// is to be tried.
pub fn derive_user_id(name: &str, email: &str, config: &ContributorConfig, suffix: u16) -> (r:
    Option<String>)
    ensures
        ({
            let base = base_id_spec(name@, email@);
            let candidate = candidate_spec(base, suffix);
            if !config@.has(base) {
                r is Some && r->0@ == base
            } else if !config@.has(candidate) {
                r is Some && r->0@ == candidate
            } else {
                r is None
            }
        }),
{
    let base = base_user_id(name, email);
    if !config.contains(base.as_str()) {
        return Some(base);
    }
    let candidate = user_id_candidate(base.as_str(), suffix);
    if !config.contains(candidate.as_str()) {
        Some(candidate)
    } else {
        None
    }
}

/// How a contributor is labelled in the list.
pub open spec fn status_label(enabled: bool, active: bool) -> Seq<char> {
    if !enabled {
        "[disabled]"@
    } else if active {
        "[active]"@
    } else {
        "[enabled]"@
    }
}

/// The line of one contributor in the list.
pub open spec fn contributor_line(c: ContributorView) -> Seq<char> {
    "  "@ + c.id + " - "@ + c.name + " "@ + (match c.role {
        Some(r) => r,
        None => Seq::empty(),
    }) + " "@ + status_label(c.enabled, c.active)
}

/// The list of contributors, line by line.
pub open spec fn contributor_lines(config: ConfigView) -> Seq<Seq<char>> {
    if config.contributors.len() == 0 {
        seq!["No users configured."@, "Use 'gitehr user add <id> <name>' to add one."@]
    } else {
        seq!["Users:"@] + Seq::new(
            config.contributors.len(),
            |i: int| contributor_line(config.contributors[i]),
        )
    }
}

fn line_of(c: &Contributor) -> (r: String)
    ensures
        r@ == contributor_line(c@),
{
    let label = if !c.enabled {
        "[disabled]"
    } else if c.active {
        "[active]"
    } else {
        "[enabled]"
    };
    let a = joined("  ", c.id.as_str());
    let b = joined(a.as_str(), " - ");
    let d = joined(b.as_str(), c.name.as_str());
    let e = joined(d.as_str(), " ");
    let f = match &c.role {
        Some(r) => joined(e.as_str(), r.as_str()),
        None => {
            e
        },
    };
    let g = joined(f.as_str(), " ");
    joined(g.as_str(), label)
}

/// The list of contributors, line by line.
pub fn list_contributors(config: &ContributorConfig) -> (r: Vec<String>)
    ensures
        crate::entry::texts(r) == contributor_lines(config@),
{
    let mut out: Vec<String> = Vec::new();
    if config.contributors.len() == 0 {
        out.push("No users configured.".to_owned());
        out.push("Use 'gitehr user add <id> <name>' to add one.".to_owned());
        return out;
    }
    out.push("Users:".to_owned());
    let mut i: usize = 0;
    while i < config.contributors.len()
        invariant
            i <= config.contributors.len(),
            out.len() == i + 1,
            out[0]@ == "Users:"@,
            forall|k: int| 0 <= k < i ==> (#[trigger] out[k + 1])@ == contributor_line(
                config@.contributors[k],
            ),
        decreases config.contributors.len() - i,
    {
        out.push(line_of(&config.contributors[i]));
        i += 1;
    }
    assert(crate::entry::texts(out) =~= contributor_lines(config@)) by {
        let want = contributor_lines(config@);
        assert forall|k: int| 0 <= k < out.len() implies crate::entry::texts(out)[k] == want[k] by {
            if k > 0 {
                assert(out[(k - 1) + 1]@ == contributor_line(config@.contributors[k - 1]));
            }
        }
    }
    out
}

/// The text with its ASCII capitals made small.
pub open spec fn ascii_lower_text(s: Seq<char>) -> Seq<char> {
    Seq::new(s.len(), |i: int| ascii_lower(s[i]))
}

/// Whether an answer to the offer of a new key pair accepts it: an empty
/// answer, `y` or `yes`, in capitals or not.
pub open spec fn accepts_spec(choice: Seq<char>) -> bool {
    choice.len() == 0 || ascii_lower_text(choice) == "y"@ || ascii_lower_text(choice) == "yes"@
}

/// Whether an answer to the offer of a new key pair accepts it.
pub fn wants_keypair(choice: &str) -> (r: bool)
    ensures
        r == accepts_spec(choice@),
{
    let x = chars_of(choice);
    let mut low = String::new();
    let mut i: usize = 0;
    while i < x.len()
        invariant
            i <= x.len(),
            low@ == ascii_lower_text(x@).take(i as int),
        decreases x.len() - i,
    {
        low.push(char_ascii_lower(x[i]));
        i += 1;
    }
    assert(low@ =~= ascii_lower_text(choice@));
    x.len() == 0 || same_text(low.as_str(), "y") || same_text(low.as_str(), "yes")
}

} // verus!
