use vstd::prelude::*;
use vstd::relations::*;
use vstd::seq_lib::*;
use vstd::string::*;
use crate::order::{
    chars_le, chars_less, lemma_chars_le_connected, lemma_chars_le_reflexive,
    lemma_chars_le_transitive, name_order,
};
use crate::text::chars_of;

verus! {

broadcast use {group_to_multiset_ensures, to_multiset_insert};

/// The directory, relative to the working directory, that holds the
/// application's log files.
pub const LOG_DIRECTORY: &'static str = "logs";

/// The beginning of every application log file name.
pub const LOG_FILENAME_PREFIX: &'static str = "clubfridge-neo.";

/// The end of every application log file name.
pub const LOG_FILENAME_SUFFIX: &'static str = ".log";

/// A name of the form `clubfridge-neo.*.log`: the prefix, then a (date)
/// label, then the suffix, where prefix and suffix do not overlap.
pub open spec fn is_log_file_name(name: Seq<char>) -> bool {
    &&& name.len() >= LOG_FILENAME_PREFIX@.len() + LOG_FILENAME_SUFFIX@.len()
    &&& LOG_FILENAME_PREFIX@.is_prefix_of(name)
    &&& LOG_FILENAME_SUFFIX@.is_suffix_of(name)
}

/// A log file name is exactly its prefix, a label and its suffix.
pub proof fn lemma_log_file_name_parts(name: Seq<char>)
    ensures
        is_log_file_name(name) <==> exists|label: Seq<char>|
            name == LOG_FILENAME_PREFIX@ + label + LOG_FILENAME_SUFFIX@,
{
    let p = LOG_FILENAME_PREFIX@;
    let s = LOG_FILENAME_SUFFIX@;
    if is_log_file_name(name) {
        let label = name.subrange(p.len() as int, name.len() - s.len());
        assert(name =~= p + label + s);
    }
    if exists|label: Seq<char>| name == p + label + s {
        let label = choose|label: Seq<char>| name == p + label + s;
        assert(p =~= name.subrange(0, p.len() as int));
        assert(s =~= name.subrange(name.len() - s.len(), name.len() as int));
    }
}

/// A directory entry name for an application log file.
#[derive(Debug, Clone, PartialEq, Eq)]
pub struct LogFileName(pub String);

impl View for LogFileName {
    type V = Seq<char>;

    open spec fn view(&self) -> Seq<char> {
        self.0@
    }
}

/// The names of a sequence of log files.
pub open spec fn names_view(files: Seq<LogFileName>) -> Seq<Seq<char>> {
    files.map_values(|f: LogFileName| f@)
}

/// The contents of a sequence of strings.
pub open spec fn strings_view(strings: Seq<String>) -> Seq<Seq<char>> {
    strings.map_values(|s: String| s@)
}

impl LogFileName {
    /// The file name as a string slice.
    pub fn as_str(&self) -> (r: &str)
        ensures
            r@ == self@,
    {
        self.0.as_str()
    }

    /// Whether both file names are the same.
    pub fn same_as(&self, other: &LogFileName) -> (r: bool)
        ensures
            r == (self@ == other@),
    {
        self.0 == other.0
    }

    /// A copy of this file name.
    pub fn duplicate(&self) -> (r: LogFileName)
        ensures
            r@ == self@,
    {
        LogFileName(self.0.clone())
    }

    /// Whether `date_label` can be taken of this name.
    pub fn has_date_label(&self) -> (r: bool)
        ensures
            r == is_log_file_name(self@),
    {
        let name = chars_of(self.0.as_str());
        let prefix = chars_of(LOG_FILENAME_PREFIX);
        let suffix = chars_of(LOG_FILENAME_SUFFIX);
        is_log_file_chars(&name, &prefix, &suffix)
    }

    /// The part of the file name between `clubfridge-neo.` and `.log`,
    /// which is the date of the log file.
    pub fn date_label(&self) -> (r: &str)
        requires
            is_log_file_name(self@),
        ensures
            r@ == self@.subrange(
                LOG_FILENAME_PREFIX@.len() as int,
                self@.len() - LOG_FILENAME_SUFFIX@.len(),
            ),
            LOG_FILENAME_PREFIX@ + r@ + LOG_FILENAME_SUFFIX@ == self@,
    {
        let name = self.0.as_str();
        let len = name.unicode_len();
        let start = LOG_FILENAME_PREFIX.unicode_len();
        let end = len - LOG_FILENAME_SUFFIX.unicode_len();
        let label = name.substring_char(start, end);
        proof {
            assert(self@ =~= LOG_FILENAME_PREFIX@ + label@ + LOG_FILENAME_SUFFIX@);
        }
        label
    }
}

fn is_log_file_chars(name: &Vec<char>, prefix: &Vec<char>, suffix: &Vec<char>) -> (r: bool)
    requires
        prefix@ == LOG_FILENAME_PREFIX@,
        suffix@ == LOG_FILENAME_SUFFIX@,
    ensures
        r == is_log_file_name(name@),
{
    has_prefix(name, prefix) && has_suffix(name, suffix) && name.len() - prefix.len()
        >= suffix.len()
}

fn has_prefix(s: &Vec<char>, prefix: &Vec<char>) -> (r: bool)
    ensures
        r == prefix@.is_prefix_of(s@),
{
    if prefix.len() > s.len() {
        return false;
    }
    let mut i: usize = 0;
    while i < prefix.len()
        invariant
            prefix@.len() <= s@.len(),
            0 <= i <= prefix@.len(),
            forall|k: int| 0 <= k < i ==> s@[k] == prefix@[k],
        decreases prefix@.len() - i,
    {
        if s[i] != prefix[i] {
            assert(s@.subrange(0, prefix@.len() as int)[i as int] != prefix@[i as int]);
            return false;
        }
        i = i + 1;
    }
    assert(prefix@ =~= s@.subrange(0, prefix@.len() as int));
    true
}

fn has_suffix(s: &Vec<char>, suffix: &Vec<char>) -> (r: bool)
    ensures
        r == suffix@.is_suffix_of(s@),
{
    if suffix.len() > s.len() {
        return false;
    }
    let n = s.len();
    let offset = n - suffix.len();
    let mut i: usize = 0;
    while i < suffix.len()
        invariant
            n == s@.len(),
            suffix@.len() <= s@.len(),
            offset == s@.len() - suffix@.len(),
            0 <= i <= suffix@.len(),
            forall|k: int| 0 <= k < i ==> s@[offset + k] == suffix@[k],
        decreases suffix@.len() - i,
    {
        if s[offset + i] != suffix[i] {
            assert(s@.subrange(offset as int, s@.len() as int)[i as int] != suffix@[i as int]);
            return false;
        }
        i = i + 1;
    }
    assert(suffix@ =~= s@.subrange(offset as int, s@.len() as int));
    true
}

/// What reading the log directory gave.
pub enum DirectoryListing {
    /// The directory does not exist.
    Missing,
    /// The names of the regular files in the directory whose names are
    /// valid UTF-8.
    Entries(Vec<String>),
    /// Reading the directory failed with this message.
    Failed(String),
}

/// `files` are exactly the log file names among `entries`, in alphabetical
/// order.
pub open spec fn is_sorted_log_file_list(entries: Seq<Seq<char>>, files: Seq<Seq<char>>) -> bool {
    &&& sorted_by(files, name_order())
    &&& files.to_multiset() == entries.filter(|n: Seq<char>| is_log_file_name(n)).to_multiset()
}

proof fn lemma_insert_keeps_sorted(s: Seq<Seq<char>>, p: int, x: Seq<char>)
    requires
        sorted_by(s, name_order()),
        0 <= p <= s.len(),
        forall|q: int| 0 <= q < p ==> chars_le(#[trigger] s[q], x),
        p < s.len() ==> chars_le(x, s[p]),
    ensures
        sorted_by(s.insert(p, x), name_order()),
{
    let t = s.insert(p, x);
    assert forall|i: int, j: int| 0 <= i < j < t.len() implies #[trigger] chars_le(t[i], t[j]) by {
        if j < p {
            assert(t[i] == s[i] && t[j] == s[j]);
            assert(name_order()(s[i], s[j]));
        } else if j == p {
            assert(t[i] == s[i]);
        } else if i < p {
            assert(t[i] == s[i] && t[j] == s[j - 1]);
            if p < j - 1 {
                assert(name_order()(s[p], s[j - 1]));
            } else {
                lemma_chars_le_reflexive(s[p]);
            }
            lemma_chars_le_transitive(x, s[p], s[j - 1]);
            lemma_chars_le_transitive(s[i], x, s[j - 1]);
        } else if i == p {
            assert(t[j] == s[j - 1]);
            if p < j - 1 {
                assert(name_order()(s[p], s[j - 1]));
            } else {
                lemma_chars_le_reflexive(s[p]);
            }
            lemma_chars_le_transitive(x, s[p], s[j - 1]);
        } else {
            assert(t[i] == s[i - 1] && t[j] == s[j - 1]);
            assert(name_order()(s[i - 1], s[j - 1]));
        }
    }
}

/// The log file names among `entries`, sorted alphabetically.
pub fn sorted_log_file_names(entries: &Vec<String>) -> (files: Vec<LogFileName>)
    ensures
        is_sorted_log_file_list(strings_view(entries@), names_view(files@)),
{
    let prefix = chars_of(LOG_FILENAME_PREFIX);
    let suffix = chars_of(LOG_FILENAME_SUFFIX);
    let ghost pred = |n: Seq<char>| is_log_file_name(n);
    let ghost all = strings_view(entries@);
    let mut files: Vec<LogFileName> = Vec::new();
    let mut i: usize = 0;
    assert(all.take(0).filter(pred) =~= Seq::<Seq<char>>::empty()) by {
        reveal(Seq::filter);
    }
    assert(names_view(files@) =~= Seq::<Seq<char>>::empty());
    while i < entries.len()
        invariant
            0 <= i <= entries@.len(),
            all == strings_view(entries@),
            prefix@ == LOG_FILENAME_PREFIX@,
            suffix@ == LOG_FILENAME_SUFFIX@,
            pred == (|n: Seq<char>| is_log_file_name(n)),
            sorted_by(names_view(files@), name_order()),
            names_view(files@).to_multiset() == all.take(i as int).filter(pred).to_multiset(),
        decreases entries@.len() - i,
    {
        let name = chars_of(entries[i].as_str());
        assert(all.take(i + 1).drop_last() =~= all.take(i as int));
        assert(all[i as int] == name@);
        if is_log_file_chars(&name, &prefix, &suffix) {
            let ghost before = names_view(files@);
            let mut p: usize = 0;
            while p < files.len() && !chars_less(&name, &chars_of(files[p].as_str()))
                invariant
                    0 <= p <= files@.len(),
                    before == names_view(files@),
                    forall|q: int| 0 <= q < p ==> chars_le(#[trigger] before[q], name@),
                decreases files@.len() - p,
            {
                p = p + 1;
            }
            proof {
                if p < files@.len() {
                    lemma_chars_le_connected(name@, before[p as int]);
                }
                lemma_insert_keeps_sorted(before, p as int, name@);
                reveal(Seq::filter);
            }
            files.insert(p, LogFileName(entries[i].clone()));
            assert(names_view(files@) =~= before.insert(p as int, name@));
        } else {
            proof {
                reveal(Seq::filter);
            }
        }
        i = i + 1;
    }
    assert(all.take(entries@.len() as int) =~= all);
    files
}

/// In a scanned list the last file, which the viewer falls back to, is the
/// alphabetically greatest one, which is the newest under date-based names.
pub proof fn lemma_last_listed_is_greatest(entries: Seq<Seq<char>>, files: Seq<Seq<char>>)
    requires
        is_sorted_log_file_list(entries, files),
        files.len() > 0,
    ensures
        forall|i: int| 0 <= i < files.len() ==> chars_le(#[trigger] files[i], files.last()),
{
    assert forall|i: int| 0 <= i < files.len() implies chars_le(#[trigger] files[i], files.last()) by {
        if i < files.len() - 1 {
            assert(name_order()(files[i], files[files.len() - 1]));
        } else {
            lemma_chars_le_reflexive(files[i]);
        }
    }
}

/// A scanned list holds only log file names, each taken from the directory.
pub proof fn lemma_listed_names_are_log_files(entries: Seq<Seq<char>>, files: Seq<Seq<char>>)
    requires
        is_sorted_log_file_list(entries, files),
    ensures
        forall|i: int|
            0 <= i < files.len() ==> is_log_file_name(#[trigger] files[i]) && entries.contains(
                files[i],
            ),
{
    let pred = |n: Seq<char>| is_log_file_name(n);
    let filtered = entries.filter(pred);
    assert forall|i: int| 0 <= i < files.len() implies is_log_file_name(#[trigger] files[i])
        && entries.contains(files[i]) by {
        let n = files[i];
        assert(files.to_multiset().count(n) > 0);
        assert(filtered.contains(n));
        let k = choose|k: int| 0 <= k < filtered.len() && filtered[k] == n;
        entries.lemma_filter_pred(pred, k);
        entries.lemma_filter_contains_rev(pred, n);
    }
}

/// Every log file name in the directory appears in the scanned list.
pub proof fn lemma_log_files_are_listed(entries: Seq<Seq<char>>, files: Seq<Seq<char>>, name: Seq<char>)
    requires
        is_sorted_log_file_list(entries, files),
        entries.contains(name),
        is_log_file_name(name),
    ensures
        files.contains(name),
{
    let pred = |n: Seq<char>| is_log_file_name(n);
    let k = choose|k: int| 0 <= k < entries.len() && entries[k] == name;
    entries.lemma_filter_contains(pred, k);
    assert(entries.filter(pred).to_multiset().count(name) > 0);
    assert(files.to_multiset().count(name) > 0);
}

/// The result of scanning the log directory: a missing directory counts as
/// one without log files.
pub fn log_files_from_listing(listing: DirectoryListing) -> (r: Result<Vec<LogFileName>, String>)
    ensures
        match listing {
            DirectoryListing::Missing => r matches Ok(files) && files@.len() == 0,
            DirectoryListing::Entries(entries) => r matches Ok(files) && is_sorted_log_file_list(
                strings_view(entries@),
                names_view(files@),
            ),
            DirectoryListing::Failed(message) => r matches Err(e) && e@ == message@,
        },
{
    match listing {
        DirectoryListing::Missing => Ok(Vec::new()),
        DirectoryListing::Entries(entries) => Ok(sorted_log_file_names(&entries)),
        DirectoryListing::Failed(message) => Err(message),
    }
}

} // verus!
