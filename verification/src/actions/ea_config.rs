//! EA Desktop's user configuration: finding the newest `user_*.ini` file and
//! rewriting a game's launch options in it.
//!
//! The options of the file's general section are an `ini::Properties`: a list of
//! key/value pairs in file order. Setting a key drops its earlier entries and appends
//! the new one; removing a key drops all its entries.

use vstd::prelude::*;
use crate::structs::EaDesktopNewestFile;
use crate::text::str_eq;

verus! {

/// Whether the regular expression `pattern` is accepted by `regex::Regex::new`.
pub uninterp spec fn regex_valid(pattern: Seq<char>) -> bool;

/// Whether the (valid) regular expression `pattern` matches somewhere in `text`.
pub uninterp spec fn regex_matches(pattern: Seq<char>, text: Seq<char>) -> bool;

/// `regex::Regex::new(pattern).is_ok()`: whether `pattern` compiles; the result is
/// named, not stated.
#[verifier::external_body]
fn regex_compiles(pattern: &str) -> (b: bool)
    ensures
        b == regex_valid(pattern@),
{
    regex::Regex::new(pattern).is_ok()
}

/// `regex::Regex::is_match` on the compiled `pattern`: whether it matches in `text`;
/// the result is named, not stated.
#[verifier::external_body]
fn regex_is_match(pattern: &str, text: &str) -> (b: bool)
    requires
        regex_valid(pattern@),
    ensures
        b == regex_matches(pattern@, text@),
{
    regex::Regex::new(pattern).unwrap().is_match(text)
}

#[verifier::external_type_specification]
#[verifier::external_body]
pub struct ExProperties(ini::Properties);

/// The entries of a section, in order, as `Properties::iter` yields them.
pub uninterp spec fn property_entries(p: ini::Properties) -> Seq<(Seq<char>, Seq<char>)>;

/// `ini::Properties::new`: a section without entries.
#[verifier::external_body]
fn properties_new() -> (p: ini::Properties)
    ensures
        property_entries(p) == Seq::<(Seq<char>, Seq<char>)>::empty(),
{
    ini::Properties::new()
}

/// `ini::Properties::insert`: the key's earlier entries are dropped and the new entry
/// is appended (the multimap's `insert_all` drains the key's values and pushes the new
/// value to the back of the value list, which `iter` walks).
#[verifier::external_body]
fn properties_insert(p: &mut ini::Properties, key: &str, value: &str)
    ensures
        property_entries(*final(p)) == with_option(property_entries(*old(p)), key@, value@),
{
    p.insert(key, value);
}

/// `ini::Properties::remove`: all entries of the key are dropped (the multimap's
/// `remove` drains every value of the key).
#[verifier::external_body]
fn properties_remove(p: &mut ini::Properties, key: &str)
    ensures
        property_entries(*final(p)) == without_key(property_entries(*old(p)), key@),
{
    p.remove(key);
}

/// `ini::Properties::iter`, each entry copied into owned strings.
#[verifier::external_body]
fn properties_list(p: &ini::Properties) -> (v: Vec<(String, String)>)
    ensures
        options_view(v@) == property_entries(*p),
{
    p.iter().map(|(k, v)| (k.to_string(), v.to_string())).collect()
}

/// The file names of EA Desktop's user configurations.
pub open spec fn user_config_pattern() -> Seq<char> {
    "^user_.*.ini$"@
}

/// A file of EA Desktop's configuration folder: its name, its modification time in
/// seconds since the Unix epoch, and its path where the path is valid text.
pub struct ConfigFile {
    pub file_name: String,
    pub time: u64,
    pub location: Option<String>,
}

/// The newest user configuration among the first `n` files: name, time and path of
/// the first file with the greatest time above zero whose name matches and whose
/// path is readable; empty name and path and time zero where there is none.
pub open spec fn newest_upto(files: Seq<ConfigFile>, n: int) -> (Seq<char>, u64, Seq<char>)
    decreases n,
{
    if n <= 0 {
        (Seq::empty(), 0u64, Seq::empty())
    } else {
        let prev = newest_upto(files, n - 1);
        let f = files[n - 1];
        if regex_matches(user_config_pattern(), f.file_name@) && f.time > prev.1 && f.location is Some {
            (f.file_name@, f.time, f.location.unwrap()@)
        } else {
            prev
        }
    }
}

/// A listed file can be the user configuration: its name matches `user_*.ini` and its
/// path is readable.
pub open spec fn qualifies(f: ConfigFile) -> bool {
    regex_matches(user_config_pattern(), f.file_name@) && f.location is Some
}

/// No qualifying file among the first `n` is newer than the chosen one: every one of
/// them was examined.
pub proof fn newest_is_newest(files: Seq<ConfigFile>, n: int, k: int)
    requires
        0 <= k < n <= files.len(),
        qualifies(files[k]),
    ensures
        newest_upto(files, n).1 >= files[k].time,
    decreases n,
{
    if k < n - 1 {
        newest_is_newest(files, n - 1, k);
    }
}

/// The chosen configuration, where one was chosen (time above zero), is a qualifying
/// file of the listing, taken as it stands.
pub proof fn newest_is_listed(files: Seq<ConfigFile>, n: int)
    requires
        0 <= n <= files.len(),
        newest_upto(files, n).1 > 0,
    ensures
        exists|k: int| 0 <= k < n && qualifies(#[trigger] files[k])
            && newest_upto(files, n) == (files[k].file_name@, files[k].time, files[k].location.unwrap()@),
    decreases n,
{
    let f = files[n - 1];
    if regex_matches(user_config_pattern(), f.file_name@) && f.time > newest_upto(files, n - 1).1
        && f.location is Some {
        assert(qualifies(files[n - 1]));
    } else {
        newest_is_listed(files, n - 1);
        let k = choose|k: int| 0 <= k < n - 1 && qualifies(#[trigger] files[k])
            && newest_upto(files, n - 1) == (files[k].file_name@, files[k].time, files[k].location.unwrap()@);
        assert(qualifies(files[k]));
    }
}

proof fn lemma_unchosen_is_empty(files: Seq<ConfigFile>, n: int)
    requires
        0 <= n <= files.len(),
        newest_upto(files, n).1 == 0,
    ensures
        newest_upto(files, n).0.len() == 0,
    decreases n,
{
    if n > 0 {
        lemma_unchosen_is_empty(files, n - 1);
    }
}

/// The outcome of the search for the newest user configuration.
pub enum NewestConfig {
    Found { file: EaDesktopNewestFile },
    /// No file qualifies: the user has not logged in yet.
    Missing,
    /// The file-name pattern does not compile.
    BadPattern,
}

/// The newest user configuration in the folder listing `files`.
pub fn newest_config_file(files: &Vec<ConfigFile>) -> (r: NewestConfig)
    ensures
        !regex_valid(user_config_pattern()) ==> r is BadPattern,
        regex_valid(user_config_pattern()) ==> ({
            let best = newest_upto(files@, files@.len() as int);
            if best.0.len() == 0 {
                r is Missing
            } else {
                r matches NewestConfig::Found { file } && file.file_name@ == best.0 && file.time == best.1
                    && file.location@ == best.2
            }
        }),
        regex_valid(user_config_pattern()) && (forall|j: int| 0 <= j < files@.len() && qualifies(#[trigger] files@[j])
            ==> files@[j].file_name@.len() > 0)
            ==> forall|k: int| 0 <= k < files@.len() && qualifies(#[trigger] files@[k]) && files@[k].time > 0
            ==> (r matches NewestConfig::Found { file } && file.time >= files@[k].time),
        r matches NewestConfig::Found { file } ==> exists|k: int| 0 <= k < files@.len()
            && qualifies(#[trigger] files@[k]) && file.file_name@ == files@[k].file_name@
            && file.time == files@[k].time && file.location@ == files@[k].location.unwrap()@,
{
    let pattern = "^user_.*.ini$";
    if !regex_compiles(pattern) {
        return NewestConfig::BadPattern;
    }
    let mut newest = EaDesktopNewestFile { time: 0, location: String::new(), file_name: String::new() };
    let n = files.len();
    let mut i: usize = 0;
    while i < n
        invariant
            n == files@.len(),
            i <= n,
            regex_valid(pattern@),
            pattern@ == user_config_pattern(),
            newest_upto(files@, i as int) == (newest.file_name@, newest.time, newest.location@),
        decreases n - i,
    {
        let f = &files[i];
        if regex_is_match(pattern, f.file_name.as_str()) && f.time > newest.time {
            match &f.location {
                Some(location) => {
                    newest = EaDesktopNewestFile {
                        file_name: f.file_name.clone(),
                        time: f.time,
                        location: location.clone(),
                    };
                },
                None => {},
            }
        }
        i = i + 1;
    }
    proof {
        let best = newest_upto(files@, n as int);
        assert forall|k: int| 0 <= k < files@.len() && qualifies(#[trigger] files@[k])
            implies best.1 >= files@[k].time by {
            newest_is_newest(files@, n as int, k);
        }
        if best.1 > 0 {
            newest_is_listed(files@, n as int);
        } else {
            lemma_unchosen_is_empty(files@, n as int);
        }
    }
    if newest.file_name.as_str().is_empty() {
        NewestConfig::Missing
    } else {
        NewestConfig::Found { file: newest }
    }
}

/// Launch options as character sequences, in file order.
pub open spec fn options_view(p: Seq<(String, String)>) -> Seq<(Seq<char>, Seq<char>)> {
    p.map_values(|e: (String, String)| (e.0@, e.1@))
}

/// The options without any entry for `key`.
pub open spec fn without_key(p: Seq<(Seq<char>, Seq<char>)>, key: Seq<char>) -> Seq<(Seq<char>, Seq<char>)>
    decreases p.len(),
{
    if p.len() == 0 {
        p
    } else {
        let rest = without_key(p.drop_last(), key);
        if p.last().0 == key {
            rest
        } else {
            rest.push(p.last())
        }
    }
}

/// The options with `key` set to `value`: earlier entries dropped, the new one last.
pub open spec fn with_option(p: Seq<(Seq<char>, Seq<char>)>, key: Seq<char>, value: Seq<char>) -> Seq<(Seq<char>, Seq<char>)> {
    without_key(p, key).push((key, value))
}

/// The value of the last entry for `key`.
pub open spec fn option_value(p: Seq<(Seq<char>, Seq<char>)>, key: Seq<char>) -> Option<Seq<char>>
    decreases p.len(),
{
    if p.len() == 0 {
        None
    } else if p.last().0 == key {
        Some(p.last().1)
    } else {
        option_value(p.drop_last(), key)
    }
}

/// The launch-option key that a rewritten configuration starts with.
pub open spec fn seed_key() -> Seq<char> {
    "user.gamecommandline.origin.ofr.50.0002683"@
}

/// The new options after copying the first `n` old entries: the seed key with an
/// empty value, then each old entry set, except that the game's own keys are removed.
pub open spec fn copied_upto(old: Seq<(Seq<char>, Seq<char>)>, versions: Seq<Seq<char>>, n: int) -> Seq<(Seq<char>, Seq<char>)>
    decreases n,
{
    if n <= 0 {
        seq![(seed_key(), Seq::<char>::empty())]
    } else {
        let p = copied_upto(old, versions, n - 1);
        let e = old[n - 1];
        if versions.contains(e.0) {
            without_key(p, e.0)
        } else {
            with_option(p, e.0, e.1)
        }
    }
}

/// The options after setting the first `m` of the game's keys to `settings`.
pub open spec fn with_settings(p: Seq<(Seq<char>, Seq<char>)>, versions: Seq<Seq<char>>, settings: Seq<char>, m: int) -> Seq<(Seq<char>, Seq<char>)>
    decreases m,
{
    if m <= 0 {
        p
    } else {
        with_option(with_settings(p, versions, settings, m - 1), versions[m - 1], settings)
    }
}

/// The rewritten launch options: the old ones copied (the game's keys removed), then
/// every key of the game set to `settings`.
pub open spec fn rewritten_options(old: Seq<(Seq<char>, Seq<char>)>, versions: Seq<Seq<char>>, settings: Seq<char>) -> Seq<(Seq<char>, Seq<char>)> {
    with_settings(copied_upto(old, versions, old.len() as int), versions, settings, versions.len() as int)
}

fn is_version_key(versions: &Vec<&'static str>, key: &String) -> (b: bool)
    ensures
        b == versions@.map_values(|k: &'static str| k@).contains(key@),
{
    let ghost vs = versions@.map_values(|k: &'static str| k@);
    let n = versions.len();
    let mut i: usize = 0;
    while i < n
        invariant
            n == versions@.len(),
            vs == versions@.map_values(|k: &'static str| k@),
            i <= n,
            forall|j: int| 0 <= j < i ==> vs[j] != key@,
        decreases n - i,
    {
        if str_eq(versions[i], key.as_str()) {
            assert(vs[i as int] == key@);
            return true;
        }
        i = i + 1;
    }
    false
}

/// The launch options after writing `settings` as the game's launch options into the
/// old options `old`; `versions` are the game's keys.
pub fn rewrite_launch_options(old: &ini::Properties, versions: &Vec<&'static str>, settings: &str) -> (r: ini::Properties)
    ensures
        property_entries(r) == rewritten_options(property_entries(*old),
            versions@.map_values(|k: &'static str| k@), settings@),
{
    let ghost vs = versions@.map_values(|k: &'static str| k@);
    let entries = properties_list(old);
    let ghost ov = options_view(entries@);
    let mut conf = properties_new();
    properties_insert(&mut conf, "user.gamecommandline.origin.ofr.50.0002683", "");
    assert(with_option(Seq::<(Seq<char>, Seq<char>)>::empty(), seed_key(), ""@) =~= copied_upto(ov, vs, 0)) by {
        reveal_strlit("");
        assert(""@.len() == 0);
        assert(""@ =~= Seq::<char>::empty());
        assert(without_key(Seq::<(Seq<char>, Seq<char>)>::empty(), seed_key()) =~= Seq::<(Seq<char>, Seq<char>)>::empty());
    }
    let n = entries.len();
    let mut i: usize = 0;
    while i < n
        invariant
            n == entries@.len(),
            ov == options_view(entries@),
            vs == versions@.map_values(|k: &'static str| k@),
            i <= n,
            property_entries(conf) == copied_upto(ov, vs, i as int),
        decreases n - i,
    {
        let key = entries[i].0.as_str();
        assert(ov[i as int] == (entries@[i as int].0@, entries@[i as int].1@));
        if is_version_key(versions, &entries[i].0) {
            properties_remove(&mut conf, key);
        } else {
            properties_insert(&mut conf, key, entries[i].1.as_str());
        }
        i = i + 1;
    }
    let m = versions.len();
    let mut j: usize = 0;
    while j < m
        invariant
            m == versions@.len(),
            ov == options_view(entries@),
            vs == versions@.map_values(|k: &'static str| k@),
            j <= m,
            property_entries(conf) == with_settings(copied_upto(ov, vs, n as int), vs, settings@, j as int),
        decreases m - j,
    {
        assert(vs[j as int] == versions@[j as int]@);
        properties_insert(&mut conf, versions[j], settings);
        j = j + 1;
    }
    conf
}

proof fn lemma_without_value(p: Seq<(Seq<char>, Seq<char>)>, key: Seq<char>, other: Seq<char>)
    ensures
        option_value(without_key(p, key), other) == (if other == key { None } else { option_value(p, other) }),
    decreases p.len(),
{
    if p.len() > 0 {
        lemma_without_value(p.drop_last(), key, other);
        let rest = without_key(p.drop_last(), key);
        if p.last().0 != key {
            assert(rest.push(p.last()).drop_last() =~= rest);
        }
    }
}

proof fn lemma_with_value(p: Seq<(Seq<char>, Seq<char>)>, key: Seq<char>, value: Seq<char>, other: Seq<char>)
    ensures
        option_value(with_option(p, key, value), other)
            == (if other == key { Some(value) } else { option_value(p, other) }),
{
    lemma_without_value(p, key, other);
    assert(with_option(p, key, value).drop_last() =~= without_key(p, key));
}

proof fn lemma_settings_set(p: Seq<(Seq<char>, Seq<char>)>, versions: Seq<Seq<char>>, settings: Seq<char>, m: int, j: int)
    requires
        0 <= j < m <= versions.len(),
    ensures
        option_value(with_settings(p, versions, settings, m), versions[j]) == Some(settings),
    decreases m,
{
    lemma_with_value(with_settings(p, versions, settings, m - 1), versions[m - 1], settings, versions[j]);
    if j < m - 1 {
        lemma_settings_set(p, versions, settings, m - 1, j);
    }
}

proof fn lemma_settings_keep(p: Seq<(Seq<char>, Seq<char>)>, versions: Seq<Seq<char>>, settings: Seq<char>, m: int, key: Seq<char>)
    requires
        0 <= m <= versions.len(),
        !versions.contains(key),
    ensures
        option_value(with_settings(p, versions, settings, m), key) == option_value(p, key),
    decreases m,
{
    if m > 0 {
        assert(versions[m - 1] != key);
        lemma_with_value(with_settings(p, versions, settings, m - 1), versions[m - 1], settings, key);
        lemma_settings_keep(p, versions, settings, m - 1, key);
    }
}

/// The value a key has before the copy: the seed key starts out empty.
pub open spec fn initial_value(key: Seq<char>) -> Option<Seq<char>> {
    if key == seed_key() {
        Some(Seq::empty())
    } else {
        None
    }
}

proof fn lemma_copied_keep(old: Seq<(Seq<char>, Seq<char>)>, versions: Seq<Seq<char>>, n: int, key: Seq<char>)
    requires
        0 <= n <= old.len(),
        !versions.contains(key),
    ensures
        option_value(copied_upto(old, versions, n), key) == (match option_value(old.subrange(0, n), key) {
            Some(v) => Some(v),
            None => initial_value(key),
        }),
    decreases n,
{
    if n == 0 {
        let p = seq![(seed_key(), Seq::<char>::empty())];
        assert(p.drop_last() =~= Seq::<(Seq<char>, Seq<char>)>::empty());
        assert(copied_upto(old, versions, 0) == p);
        assert(option_value(p.drop_last(), key) is None);
        assert(option_value(old.subrange(0, 0), key) is None);
        assert(option_value(p, key) == initial_value(key));
    } else {
        lemma_copied_keep(old, versions, n - 1, key);
        let p = copied_upto(old, versions, n - 1);
        let e = old[n - 1];
        assert(old.subrange(0, n).drop_last() =~= old.subrange(0, n - 1));
        assert(old.subrange(0, n).last() == e);
        if versions.contains(e.0) {
            lemma_without_value(p, e.0, key);
        } else {
            lemma_with_value(p, e.0, e.1, key);
        }
    }
}

/// After the rewrite, every launch-option key of the game holds exactly the new
/// launch settings.
pub proof fn rewrite_sets_game_options(old: Seq<(Seq<char>, Seq<char>)>, versions: Seq<Seq<char>>, settings: Seq<char>, j: int)
    requires
        0 <= j < versions.len(),
    ensures
        option_value(rewritten_options(old, versions, settings), versions[j]) == Some(settings),
{
    lemma_settings_set(copied_upto(old, versions, old.len() as int), versions, settings,
        versions.len() as int, j);
}

/// The rewrite keeps every other option as it was; the seed key, where the old
/// configuration lacks it, is added with an empty value.
pub proof fn rewrite_keeps_other_options(old: Seq<(Seq<char>, Seq<char>)>, versions: Seq<Seq<char>>, settings: Seq<char>, key: Seq<char>)
    requires
        !versions.contains(key),
    ensures
        option_value(rewritten_options(old, versions, settings), key) == (match option_value(old, key) {
            Some(v) => Some(v),
            None => initial_value(key),
        }),
{
    lemma_settings_keep(copied_upto(old, versions, old.len() as int), versions, settings,
        versions.len() as int, key);
    lemma_copied_keep(old, versions, old.len() as int, key);
    assert(old.subrange(0, old.len() as int) =~= old);
}

} // verus!
