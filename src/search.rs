use vstd::prelude::*;
use crate::args::{arg_error_message, arg_error_text, string_arg, string_arg_of};
use crate::defs::{
    is_number, is_text, keys_distinct, list_value, number_bits, number_value, struct_value, text_value,
    FunctionCall, FunctionResponse, Kind, Struct, Value,
};
use crate::text::string_of_chars;

verus! {

/// Mask of the file-type bits of a mode.
pub const S_IFMT: u32 = 0o170000;
pub const S_IFSOCK: u32 = 0o140000;
pub const S_IFLNK: u32 = 0o120000;
pub const S_IFREG: u32 = 0o100000;
pub const S_IFBLK: u32 = 0o060000;
pub const S_IFDIR: u32 = 0o040000;
pub const S_IFCHR: u32 = 0o020000;
pub const S_IFIFO: u32 = 0o010000;
/// Set-user-id bit.
pub const S_ISUID: u32 = 0o4000;
/// Set-group-id bit.
pub const S_ISGID: u32 = 0o2000;
/// Sticky bit.
pub const S_ISVTX: u32 = 0o1000;

/// The letter for the file type held in the type bits of `mode`.
pub open spec fn type_letter(mode: u32) -> char {
    let t = mode & S_IFMT;
    if t == S_IFREG {
        '-'
    } else if t == S_IFDIR {
        'd'
    } else if t == S_IFLNK {
        'l'
    } else if t == S_IFCHR {
        'c'
    } else if t == S_IFBLK {
        'b'
    } else if t == S_IFIFO {
        'p'
    } else if t == S_IFSOCK {
        's'
    } else {
        '?'
    }
}

/// `r`, `w` or `x` for permission column `pos` (1 to 9).
pub open spec fn perm_letter(pos: int) -> char {
    if pos % 3 == 1 {
        'r'
    } else if pos % 3 == 2 {
        'w'
    } else {
        'x'
    }
}

/// The permission bit shown in column `pos` (1 to 9): owner read is the
/// highest of the nine, other execute the lowest.
pub open spec fn perm_bit(pos: int) -> u32 {
    (1u32 << ((9 - pos) as u32))
}

/// Column `pos` of the permission string of `mode`.
pub open spec fn mode_char(mode: u32, pos: int) -> char {
    if pos == 0 {
        type_letter(mode)
    } else if pos == 3 && mode & S_ISUID != 0 {
        's'
    } else if pos == 6 && mode & S_ISGID != 0 {
        's'
    } else if pos == 9 && mode & S_ISVTX != 0 {
        't'
    } else if mode & perm_bit(pos) != 0 {
        perm_letter(pos)
    } else {
        '-'
    }
}

/// The ten-character permission string of `mode`.
pub open spec fn mode_text(mode: u32) -> Seq<char> {
    Seq::new(10, |pos: int| mode_char(mode, pos))
}

fn file_type_char(mode: u32) -> (r: char)
    ensures
        r == type_letter(mode),
{
    let t = mode & S_IFMT;
    if t == S_IFREG {
        '-'
    } else if t == S_IFDIR {
        'd'
    } else if t == S_IFLNK {
        'l'
    } else if t == S_IFCHR {
        'c'
    } else if t == S_IFBLK {
        'b'
    } else if t == S_IFIFO {
        'p'
    } else if t == S_IFSOCK {
        's'
    } else {
        '?'
    }
}

/// Encodes the raw mode bits as a permission string such as `drwxr-xr-x`.
pub fn mode_to_str(mode: u32) -> (r: String)
    ensures
        r@ == mode_text(mode),
{
    let mut v: Vec<char> = Vec::new();
    v.push(file_type_char(mode));
    let mut i: u32 = 0;
    while i < 9
        invariant
            0 <= i <= 9,
            v@.len() == i + 1,
            v@[0] == type_letter(mode),
            forall|k: int|
                1 <= k <= i ==> #[trigger] v@[k] == (if mode & perm_bit(k) != 0 {
                    perm_letter(k)
                } else {
                    '-'
                }),
        decreases 9 - i,
    {
        let mask: u32 = 1u32 << (8 - i);
        let letter = if i % 3 == 0 {
            'r'
        } else if i % 3 == 1 {
            'w'
        } else {
            'x'
        };
        assert(mask == perm_bit(i + 1));
        if mode & mask != 0 {
            v.push(letter);
        } else {
            v.push('-');
        }
        i = i + 1;
    }
    if mode & S_ISVTX != 0 {
        v.set(9, 't');
    }
    if mode & S_ISGID != 0 {
        v.set(6, 's');
    }
    if mode & S_ISUID != 0 {
        v.set(3, 's');
    }
    assert(v@ =~= mode_text(mode));
    string_of_chars(&v)
}

/// One search result: a path and its owner, group and permission string.
#[derive(Debug)]
pub struct FileEntry {
    pub path: String,
    pub uid: u32,
    pub gid: u32,
    pub mode: String,
}

/// What the filesystem reported for a matched path.
#[derive(Debug)]
pub struct PathInfo {
    pub path: String,
    pub uid: u32,
    pub gid: u32,
    /// Raw mode bits, type bits included.
    pub mode: u32,
}

/// One item of a glob expansion.
#[derive(Debug)]
pub enum PathStat {
    /// A matched path whose attributes (of the link itself, for a symlink) were read.
    Found(PathInfo),
    /// A matched path whose attributes could not be read, with the reason.
    StatFailed(String),
    /// An entry that the expansion itself could not read; it is skipped.
    WalkFailed,
}

/// The outcome of expanding a glob pattern.
#[derive(Debug)]
pub enum GlobScan {
    /// The pattern did not compile; the message says why.
    BadPattern(String),
    /// The items of the expansion, in order.
    Paths(Vec<PathStat>),
}

/// A result entry as plain values: path, uid, gid, permission string.
pub type EntryModel = (Seq<char>, u32, u32, Seq<char>);

pub open spec fn entry_model(e: FileEntry) -> EntryModel {
    (e.path@, e.uid, e.gid, e.mode@)
}

/// The entries that the items `items` give, in order.
pub open spec fn found_entries(items: Seq<PathStat>) -> Seq<EntryModel>
    decreases items.len(),
{
    if items.len() == 0 {
        Seq::empty()
    } else {
        let r = found_entries(items.drop_last());
        match items.last() {
            PathStat::Found(p) => r.push((p.path@, p.uid, p.gid, mode_text(p.mode))),
            _ => r,
        }
    }
}

/// The messages of the items of `items` whose attributes could not be read, in order.
pub open spec fn failure_texts(items: Seq<PathStat>) -> Seq<Seq<char>>
    decreases items.len(),
{
    if items.len() == 0 {
        Seq::empty()
    } else {
        let r = failure_texts(items.drop_last());
        match items.last() {
            PathStat::StatFailed(m) => r.push(m@),
            _ => r,
        }
    }
}

pub open spec fn scan_entries(scan: GlobScan) -> Seq<EntryModel> {
    match scan {
        GlobScan::BadPattern(_) => Seq::empty(),
        GlobScan::Paths(items) => found_entries(items@),
    }
}

pub open spec fn scan_errors(scan: GlobScan) -> Seq<Seq<char>> {
    match scan {
        GlobScan::BadPattern(m) => seq![m@],
        GlobScan::Paths(items) => failure_texts(items@),
    }
}

pub open spec fn texts(v: Seq<String>) -> Seq<Seq<char>> {
    v.map_values(|s: String| s@)
}

pub open spec fn entry_models(v: Seq<FileEntry>) -> Seq<EntryModel> {
    v.map_values(|e: FileEntry| entry_model(e))
}

/// Splits a glob expansion into result entries and error messages: one entry
/// per path whose attributes were read, one message per path whose were not,
/// or the single message of a pattern that did not compile.
pub fn search_fs(scan: &GlobScan) -> (r: (Vec<FileEntry>, Vec<String>))
    ensures
        entry_models(r.0@) == scan_entries(*scan),
        texts(r.1@) == scan_errors(*scan),
{
    let mut entries: Vec<FileEntry> = Vec::new();
    let mut errors: Vec<String> = Vec::new();
    let items = match scan {
        GlobScan::BadPattern(m) => {
            errors.push(m.clone());
            assert(texts(errors@) =~= scan_errors(*scan));
            assert(entry_models(entries@) =~= scan_entries(*scan));
            return (entries, errors);
        },
        GlobScan::Paths(items) => items,
    };
    let mut i: usize = 0;
    while i < items.len()
        invariant
            0 <= i <= items.len(),
            entry_models(entries@) == found_entries(items@.take(i as int)),
            texts(errors@) == failure_texts(items@.take(i as int)),
        decreases items.len() - i,
    {
        let ghost before = items@.take(i as int);
        assert(items@.take(i + 1).drop_last() =~= before);
        match &items[i] {
            PathStat::Found(p) => {
                let mode = mode_to_str(p.mode);
                entries.push(FileEntry { path: p.path.clone(), uid: p.uid, gid: p.gid, mode });
                assert(entry_models(entries@) =~= found_entries(items@.take(i + 1)));
                assert(texts(errors@) =~= failure_texts(items@.take(i + 1)));
            },
            PathStat::StatFailed(m) => {
                errors.push(m.clone());
                assert(entry_models(entries@) =~= found_entries(items@.take(i + 1)));
                assert(texts(errors@) =~= failure_texts(items@.take(i + 1)));
            },
            PathStat::WalkFailed => {
                assert(entry_models(entries@) =~= found_entries(items@.take(i + 1)));
                assert(texts(errors@) =~= failure_texts(items@.take(i + 1)));
            },
        }
        i = i + 1;
    }
    assert(items@.take(items@.len() as int) =~= items@);
    (entries, errors)
}


/// An expansion with N items whose attributes were read and M whose were
/// not gives exactly N result entries and exactly M error messages: a
/// failure on some paths never hides the results of the others.
pub proof fn lemma_partial_failure_counts(items: Seq<PathStat>)
    ensures
        found_entries(items).len() == items.filter(|s: PathStat| s is Found).len(),
        failure_texts(items).len() == items.filter(|s: PathStat| s is StatFailed).len(),
    decreases items.len(),
{
    reveal(Seq::filter);
    if items.len() > 0 {
        lemma_partial_failure_counts(items.drop_last());
    }
}

/// `v` is the map of one result entry: path, uid, gid and mode, in that order.
pub open spec fn is_entry(v: Value, e: EntryModel) -> bool {
    match v.kind {
        Some(Kind::StructValue(st)) => {
            &&& keys_distinct(st)
            &&& st.fields@.len() == 4
            &&& st.fields@[0].0@ == "path"@ && is_text(st.fields@[0].1, e.0)
            &&& st.fields@[1].0@ == "uid"@ && is_number(st.fields@[1].1, number_bits(e.1 as nat))
            &&& st.fields@[2].0@ == "gid"@ && is_number(st.fields@[2].1, number_bits(e.2 as nat))
            &&& st.fields@[3].0@ == "mode"@ && is_text(st.fields@[3].1, e.3)
        },
        _ => false,
    }
}

/// `r` is a search response: a `results` list holding `entries` and an
/// `errors` list holding `errors`.
pub open spec fn is_search_reply(r: Struct, entries: Seq<EntryModel>, errors: Seq<Seq<char>>) -> bool {
    &&& keys_distinct(r)
    &&& r.fields@.len() == 2
    &&& r.fields@[0].0@ == "results"@
    &&& match r.fields@[0].1.kind {
        Some(Kind::ListValue(l)) => l.values@.len() == entries.len() && forall|i: int|
            0 <= i < entries.len() ==> is_entry(#[trigger] l.values@[i], entries[i]),
        _ => false,
    }
    &&& r.fields@[1].0@ == "errors"@
    &&& match r.fields@[1].1.kind {
        Some(Kind::ListValue(l)) => l.values@.len() == errors.len() && forall|i: int|
            0 <= i < errors.len() ==> is_text(#[trigger] l.values@[i], errors[i]),
        _ => false,
    }
}

fn entry_value(e: &FileEntry) -> (r: Value)
    ensures
        is_entry(r, entry_model(*e)),
{
    let mut fields: Vec<(String, Value)> = Vec::new();
    fields.push((String::from_str("path"), text_value(e.path.clone())));
    fields.push((String::from_str("uid"), number_value(e.uid)));
    fields.push((String::from_str("gid"), number_value(e.gid)));
    fields.push((String::from_str("mode"), text_value(e.mode.clone())));
    proof {
        reveal_strlit("path");
        reveal_strlit("uid");
        reveal_strlit("gid");
        reveal_strlit("mode");
        assert("path"@.len() != "uid"@.len() && "path"@.len() != "gid"@.len());
        assert("mode"@.len() != "uid"@.len() && "mode"@.len() != "gid"@.len());
        assert("uid"@[0] != "gid"@[0] && "path"@[0] != "mode"@[0]);
        assert(keys_distinct(Struct { fields }));
    }
    struct_value(Struct { fields })
}

fn text_list(items: &Vec<String>) -> (r: Value)
    ensures
        match r.kind {
            Some(Kind::ListValue(l)) => l.values@.len() == items@.len() && forall|i: int|
                0 <= i < items@.len() ==> is_text(#[trigger] l.values@[i], items@[i]@),
            _ => false,
        },
{
    let mut values: Vec<Value> = Vec::new();
    let mut i: usize = 0;
    while i < items.len()
        invariant
            0 <= i <= items.len(),
            values@.len() == i,
            forall|k: int| 0 <= k < i ==> is_text(#[trigger] values@[k], items@[k]@),
        decreases items.len() - i,
    {
        values.push(text_value(items[i].clone()));
        i = i + 1;
    }
    list_value(values)
}

/// The response for a search that yielded `success` and `errors`.
pub fn respond(success: &Vec<FileEntry>, errors: &Vec<String>) -> (r: Struct)
    ensures
        is_search_reply(r, entry_models(success@), texts(errors@)),
{
    let mut values: Vec<Value> = Vec::new();
    let mut i: usize = 0;
    while i < success.len()
        invariant
            0 <= i <= success.len(),
            values@.len() == i,
            forall|k: int| 0 <= k < i ==> is_entry(#[trigger] values@[k], entry_model(success@[k])),
        decreases success.len() - i,
    {
        values.push(entry_value(&success[i]));
        i = i + 1;
    }
    let mut fields: Vec<(String, Value)> = Vec::new();
    fields.push((String::from_str("results"), list_value(values)));
    fields.push((String::from_str("errors"), text_list(errors)));
    proof {
        reveal_strlit("results");
        reveal_strlit("errors");
        assert("results"@.len() != "errors"@.len());
        assert(keys_distinct(Struct { fields }));
    }
    Struct { fields }
}

/// The response for a search that failed before any path was looked at.
pub fn respond_error(errors: &Vec<String>) -> (r: Struct)
    ensures
        is_search_reply(r, Seq::empty(), texts(errors@)),
{
    let mut fields: Vec<(String, Value)> = Vec::new();
    fields.push((String::from_str("results"), list_value(Vec::new())));
    fields.push((String::from_str("errors"), text_list(errors)));
    proof {
        reveal_strlit("results");
        reveal_strlit("errors");
        assert("results"@.len() != "errors"@.len());
        assert(keys_distinct(Struct { fields }));
    }
    Struct { fields }
}

/// What a `search_fs` call with arguments `args` answers, given the expansion
/// `scan` of its pattern.
pub open spec fn search_answer(r: Struct, args: Option<Struct>, scan: GlobScan) -> bool {
    match string_arg_of(args, "pattern"@) {
        Err(e) => is_search_reply(r, Seq::empty(), seq![arg_error_text(e, "pattern"@)]),
        Ok(_) => is_search_reply(r, scan_entries(scan), scan_errors(scan)),
    }
}

/// Answers a `search_fs` call. `scan` is the expansion of the call's
/// `pattern` argument; it is not looked at when that argument is unusable.
pub fn handle_search_fs(call: &FunctionCall, scan: &GlobScan) -> (r: FunctionResponse)
    ensures
        r.id == call.id,
        r.name == call.name,
        match r.response {
            Some(st) => search_answer(st, call.args, *scan),
            None => false,
        },
{
    let response = match string_arg(call, "pattern") {
        Err(e) => {
            let mut errors: Vec<String> = Vec::new();
            errors.push(arg_error_message(e, "pattern"));
            assert(texts(errors@) =~= seq![arg_error_text(e, "pattern"@)]);
            respond_error(&errors)
        },
        Ok(_) => {
            let (success, errors) = search_fs(scan);
            respond(&success, &errors)
        },
    };
    FunctionResponse { id: call.id.clone(), name: call.name.clone(), response: Some(response) }
}

} // verus!
