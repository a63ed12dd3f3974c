use vstd::prelude::*;
use vstd::string::StrSliceExecFns;
use vstd::string::StringExecFns;

verus! {

/// Upper bound, in bytes, on the encoded form of one paste record.
pub const MAX_PASTE_VALUE_SIZE: u32 = 16 * 1024;

/// Text that replaces the name and content of a paste once it has expired.
pub const DELETE_TEMPLATE: &'static str = "DELETE";

/// The characters with the Unicode `White_Space` property.
pub open spec fn is_white_space(c: char) -> bool {
    ('\u{9}' <= c && c <= '\u{d}') || c == ' ' || c == '\u{85}' || c == '\u{a0}' || c
        == '\u{1680}' || ('\u{2000}' <= c && c <= '\u{200a}') || c == '\u{2028}' || c == '\u{2029}'
        || c == '\u{202f}' || c == '\u{205f}' || c == '\u{3000}'
}

/// Reads `s` from the left: the tokens completed so far, and the token being read.
pub open spec fn scan_tokens(s: Seq<char>) -> (Seq<Seq<char>>, Seq<char>)
    decreases s.len(),
{
    if s.len() == 0 {
        (Seq::empty(), Seq::empty())
    } else {
        let (done, cur) = scan_tokens(s.drop_last());
        if is_white_space(s.last()) {
            if cur.len() > 0 {
                (done.push(cur), Seq::empty())
            } else {
                (done, cur)
            }
        } else {
            (done, cur.push(s.last()))
        }
    }
}

/// The maximal runs of non-whitespace characters of `s`, in order.
pub open spec fn tokens(s: Seq<char>) -> Seq<Seq<char>> {
    let (done, cur) = scan_tokens(s);
    if cur.len() > 0 {
        done.push(cur)
    } else {
        done
    }
}

/// Position of the last `.` in `s`.
pub open spec fn last_dot(s: Seq<char>) -> Option<int>
    decreases s.len(),
{
    if s.len() == 0 {
        None
    } else if s.last() == '.' {
        Some(s.len() - 1)
    } else {
        last_dot(s.drop_last())
    }
}

/// What follows the last `.` of a file name; nothing where it has no `.`.
pub open spec fn extension_of(s: Seq<char>) -> Option<Seq<char>> {
    match last_dot(s) {
        Some(i) => Some(s.subrange(i + 1, s.len() as int)),
        None => None,
    }
}

pub open spec fn string_views(v: Seq<String>) -> Seq<Seq<char>> {
    v.map_values(|t: String| t@)
}

pub open spec fn option_view(o: Option<String>) -> Option<Seq<char>> {
    match o {
        Some(s) => Some(s@),
        None => None,
    }
}

pub fn is_white_space_char(c: char) -> (r: bool)
    ensures
        r == is_white_space(c),
{
    ('\u{9}' <= c && c <= '\u{d}') || c == ' ' || c == '\u{85}' || c == '\u{a0}' || c
        == '\u{1680}' || ('\u{2000}' <= c && c <= '\u{200a}') || c == '\u{2028}' || c == '\u{2029}'
        || c == '\u{202f}' || c == '\u{205f}' || c == '\u{3000}'
}

/// Splits free text into tags at whitespace, dropping empty pieces.
pub fn _create_tags(input: String) -> (r: Vec<String>)
    ensures
        string_views(r@) == tokens(input@),
{
    let s = input.as_str();
    let n = s.unicode_len();
    let mut tags: Vec<String> = Vec::new();
    let mut start: usize = 0;
    let mut i: usize = 0;
    while i < n
        invariant
            n == s@.len(),
            s@ == input@,
            start <= i <= n,
            scan_tokens(s@.take(i as int)) == (string_views(tags@), s@.subrange(
                start as int,
                i as int,
            )),
        decreases n - i,
    {
        let c = s.get_char(i);
        proof {
            assert(s@.take(i + 1).drop_last() =~= s@.take(i as int));
            assert(s@.take(i + 1).last() == c);
        }
        if is_white_space_char(c) {
            if start < i {
                let t = String::from_str(s.substring_char(start, i));
                proof {
                    assert(string_views(tags@.push(t)) =~= string_views(tags@).push(t@));
                }
                tags.push(t);
            }
            start = i + 1;
            proof {
                assert(s@.subrange(start as int, i + 1) =~= Seq::<char>::empty());
            }
        } else {
            proof {
                assert(s@.subrange(start as int, i + 1) =~= s@.subrange(start as int, i as int).push(
                    c,
                ));
            }
        }
        i = i + 1;
    }
    proof {
        assert(s@.take(n as int) =~= s@);
    }
    if start < n {
        let t = String::from_str(s.substring_char(start, n));
        proof {
            assert(string_views(tags@.push(t)) =~= string_views(tags@).push(t@));
        }
        tags.push(t);
    }
    tags
}

/// The extension of a file name: what follows its last `.`.
pub fn _get_file_extension(file_name: &str) -> (r: Option<&str>)
    ensures
        match r {
            Some(e) => extension_of(file_name@) == Some(e@),
            None => extension_of(file_name@) is None,
        },
{
    let n = file_name.unicode_len();
    let mut i: usize = n;
    proof {
        assert(file_name@.take(n as int) =~= file_name@);
    }
    while i > 0
        invariant
            n == file_name@.len(),
            i <= n,
            last_dot(file_name@) == last_dot(file_name@.take(i as int)),
        decreases i,
    {
        let c = file_name.get_char(i - 1);
        proof {
            assert(file_name@.take(i as int).drop_last() =~= file_name@.take(i - 1));
        }
        if c == '.' {
            return Some(file_name.substring_char(i, n));
        }
        i = i - 1;
    }
    None
}

/// A stored paste.
pub struct PasteData {
    pub id: u64,
    pub name: String,
    pub description: String,
    pub content: String,
    /// Identity of the owner; none for a paste created anonymously.
    pub creator: Option<String>,
    pub version: u64,
    /// Seconds after creation at which the paste expires.
    pub expire_date: u32,
    pub tags: Vec<String>,
}

/// The fields of a request to create a paste.
pub struct PasteDataCreator {
    pub short_url: Option<String>,
    pub name: String,
    pub description: String,
    pub content: String,
    pub expire_date: u32,
    /// Free text, split into tags at whitespace.
    pub tags: String,
}

/// A partial update of a paste: only the fields that are present change.
pub struct PasteDataUpdater {
    pub name: Option<String>,
    pub description: Option<String>,
    pub content: Option<String>,
    pub tags: Option<String>,
}

#[derive(Debug, PartialEq, Eq, Structural, Clone, Copy)]
pub enum IcpPasteError {
    ShortUrlShouldBeBetween4And10,
    ShortUrlAlreadyExist,
    PasteNotFound,
    PasteAlreadyExist,
    PasteIsNotAccessable,
    WrongExpireDate,
}

/// The mathematical value of a paste.
pub struct PasteView {
    pub id: u64,
    pub name: Seq<char>,
    pub description: Seq<char>,
    pub content: Seq<char>,
    pub creator: Option<Seq<char>>,
    pub version: u64,
    pub expire_date: u32,
    pub tags: Seq<Seq<char>>,
}

impl View for PasteData {
    type V = PasteView;

    open spec fn view(&self) -> PasteView {
        PasteView {
            id: self.id,
            name: self.name@,
            description: self.description@,
            content: self.content@,
            creator: option_view(self.creator),
            version: self.version,
            expire_date: self.expire_date,
            tags: string_views(self.tags@),
        }
    }
}

/// A paste as created: version one, tags split from the free text.
pub open spec fn created_paste(id: u64, user_id: Option<Seq<char>>, info: PasteDataCreator) -> PasteView {
    PasteView {
        id,
        name: info.name@,
        description: info.description@,
        content: info.content@,
        creator: user_id,
        version: 1,
        expire_date: info.expire_date,
        tags: tokens(info.tags@),
    }
}

/// A paste after a partial update: the given fields replaced, the version counted up
/// (it stays at the largest value once it has reached it).
pub open spec fn updated_paste(p: PasteView, info: PasteDataUpdater) -> PasteView {
    PasteView {
        id: p.id,
        name: match info.name {
            Some(v) => v@,
            None => p.name,
        },
        description: match info.description {
            Some(v) => v@,
            None => p.description,
        },
        content: match info.content {
            Some(v) => v@,
            None => p.content,
        },
        creator: p.creator,
        version: if p.version < u64::MAX {
            (p.version + 1) as u64
        } else {
            p.version
        },
        expire_date: p.expire_date,
        tags: match info.tags {
            Some(v) => tokens(v@),
            None => p.tags,
        },
    }
}

/// A paste once expired: name and content replaced by the sentinel, tags gone,
/// everything else kept.
pub open spec fn cleared_paste(p: PasteView) -> PasteView {
    PasteView {
        id: p.id,
        name: DELETE_TEMPLATE@,
        description: p.description,
        content: DELETE_TEMPLATE@,
        creator: p.creator,
        version: p.version,
        expire_date: p.expire_date,
        tags: Seq::empty(),
    }
}

fn clone_strings(v: &Vec<String>) -> (r: Vec<String>)
    ensures
        string_views(r@) == string_views(v@),
{
    let mut r: Vec<String> = Vec::new();
    let mut i: usize = 0;
    while i < v.len()
        invariant
            i <= v@.len(),
            string_views(r@) == string_views(v@.take(i as int)),
        decreases v@.len() - i,
    {
        let t = v[i].clone();
        proof {
            assert(string_views(r@.push(t)) =~= string_views(r@).push(t@));
            assert(v@.take(i + 1) =~= v@.take(i as int).push(v@[i as int]));
            assert(string_views(v@.take(i + 1)) =~= string_views(v@.take(i as int)).push(t@));
        }
        r.push(t);
        i = i + 1;
    }
    proof {
        assert(v@.take(v@.len() as int) =~= v@);
    }
    r
}

fn clone_option_string(o: &Option<String>) -> (r: Option<String>)
    ensures
        option_view(r) == option_view(*o),
{
    match o {
        Some(s) => Some(s.clone()),
        None => None,
    }
}

impl Clone for PasteData {
    fn clone(&self) -> (r: Self)
        ensures
            r@ == self@,
    {
        PasteData {
            id: self.id,
            name: self.name.clone(),
            description: self.description.clone(),
            content: self.content.clone(),
            creator: clone_option_string(&self.creator),
            version: self.version,
            expire_date: self.expire_date,
            tags: clone_strings(&self.tags),
        }
    }
}

impl PasteData {
    pub fn create(id: u64, user_id: Option<String>, info: PasteDataCreator) -> (r: Self)
        ensures
            r@ == created_paste(id, option_view(user_id), info),
    {
        PasteData {
            id,
            name: info.name,
            creator: user_id,
            description: info.description,
            expire_date: info.expire_date,
            content: info.content,
            tags: _create_tags(info.tags),
            version: 1,
        }
    }

    pub fn update(&mut self, info: PasteDataUpdater)
        ensures
            final(self)@ == updated_paste(old(self)@, info),
    {
        if let Some(name) = info.name {
            self.name = name;
        }
        if let Some(desc) = info.description {
            self.description = desc;
        }
        if let Some(content) = info.content {
            self.content = content;
        }
        if let Some(tags) = info.tags {
            self.tags = _create_tags(tags);
        }
        // count the change
        self.version = self.version.saturating_add(1);
    }

    /// Replaces the content of the paste by the sentinel, keeping its identity.
    pub fn clear(&mut self)
        ensures
            final(self)@ == cleared_paste(old(self)@),
    {
        self.name = String::from_str(DELETE_TEMPLATE);
        self.content = String::from_str(DELETE_TEMPLATE);
        self.tags = Vec::new();
        proof {
            assert(string_views(self.tags@) =~= Seq::<Seq<char>>::empty());
        }
    }
}

} // verus!
