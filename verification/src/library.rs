//! The rules of the resource library: what is stored for an item, a
//! collection or a tag, how a local resource's state is read, and how cached
//! icons are named.

use vstd::prelude::*;
use vstd::utf8::encode_utf8;

use crate::digest::{
    base64_encode, base64_standard, hex_lower, le_bytes, lemma_hex_lower_plain,
    lemma_plain_name_concat, plain_name, push_le_bytes, sha256, sha256_hex,
};
use crate::text::{
    chars_of, copy_of, has_prefix, joined, same_text, string_of_all, to_lowercase,
    trim, trimmed, unicode_lowercase,
};
use crate::web_url::{opt_view, WebUrl};

verus! {

// ---------------------------------------------------------------------------
// Tags
// ---------------------------------------------------------------------------

/// The hash that picks a tag's color: over the UTF-8 bytes of its name,
/// `h = h * 31 + byte`, wrapping at the width of `usize`.
pub open spec fn tag_hash(bytes: Seq<u8>) -> usize
    decreases bytes.len(),
{
    if bytes.len() == 0 {
        0
    } else {
        tag_hash(bytes.drop_last()).wrapping_mul(31).wrapping_add(bytes.last() as usize)
    }
}

/// The palette new tags take their color from.
pub open spec fn palette_color(i: int) -> Seq<char> {
    if i == 0 {
        "#8b5cf6"@
    } else if i == 1 {
        "#dc6d67"@
    } else if i == 2 {
        "#4f8e72"@
    } else if i == 3 {
        "#c1802c"@
    } else if i == 4 {
        "#4c7fa8"@
    } else {
        "#a45d86"@
    }
}

/// The number of colors in the palette.
pub const PALETTE_SIZE: usize = 6;

/// The color of a new tag named `name`: the palette entry at its hash
/// modulo the palette size.
pub open spec fn tag_color_spec(name: Seq<char>) -> Seq<char> {
    palette_color((tag_hash(encode_utf8(name)) % (PALETTE_SIZE as usize)) as int)
}

/// The color given to a new tag named `name`.
pub fn tag_color(name: &str) -> (c: &'static str)
    ensures
        c@ == tag_color_spec(name@),
{
    let bytes = name.as_bytes();
    let mut hash: usize = 0;
    let mut i: usize = 0;
    while i < bytes.len()
        invariant
            i <= bytes@.len(),
            bytes@ == encode_utf8(name@),
            hash == tag_hash(bytes@.take(i as int)),
        decreases bytes.len() - i,
    {
        assert(bytes@.take(i + 1).drop_last() =~= bytes@.take(i as int));
        hash = hash.wrapping_mul(31).wrapping_add(bytes[i] as usize);
        i = i + 1;
    }
    assert(bytes@.take(bytes@.len() as int) =~= bytes@);
    let index = hash % PALETTE_SIZE;
    if index == 0 {
        "#8b5cf6"
    } else if index == 1 {
        "#dc6d67"
    } else if index == 2 {
        "#4f8e72"
    } else if index == 3 {
        "#c1802c"
    } else if index == 4 {
        "#4c7fa8"
    } else {
        "#a45d86"
    }
}

// ---------------------------------------------------------------------------
// Editing an item
// ---------------------------------------------------------------------------

/// The longest title, in chars.
pub const TITLE_MAX_CHARS: usize = 180;

/// The longest note, in chars.
pub const NOTE_MAX_CHARS: usize = 1000;

/// The most collections an item is put in by one edit.
pub const COLLECTION_LIMIT: usize = 30;

/// The most tag names one edit reads.
pub const TAG_LIMIT: usize = 20;

/// The longest tag name, in chars.
pub const TAG_NAME_MAX_CHARS: usize = 40;

/// Refusal of a title that is empty or too long.
pub const TITLE_RANGE: &'static str = "Başlık 1–180 karakter olmalı.";

/// Refusal of a note that is too long.
pub const NOTE_TOO_LONG: &'static str = "Not alanı en fazla 1000 karakter olabilir.";

/// A tag to attach: its trimmed name, and the color it gets if it is new.
pub struct TagAssignment {
    pub name: String,
    pub color: &'static str,
}

/// What an edit of an item stores.
pub struct ItemMetadataUpdate {
    /// The trimmed title.
    pub title: String,
    /// The trimmed note, or nothing when it is empty.
    pub description: Option<String>,
    /// The collections the item is in afterwards, each with its position.
    pub collections: Vec<(i64, i64)>,
    /// The tags the item has afterwards, in the order they were given.
    pub tags: Vec<TagAssignment>,
}

/// The collections an edit assigns: the first [`COLLECTION_LIMIT`] of `ids`,
/// each with its index as position.
pub open spec fn collection_plan(ids: Seq<i64>) -> Seq<(i64, i64)> {
    let n = if ids.len() <= COLLECTION_LIMIT {
        ids.len() as int
    } else {
        COLLECTION_LIMIT as int
    };
    Seq::new(n as nat, |i: int| (ids[i], i as i64))
}

/// A tag name that is kept: 1 to [`TAG_NAME_MAX_CHARS`] chars once trimmed.
pub open spec fn tag_name_kept(name: Seq<char>) -> bool {
    0 < trimmed(name).len() <= TAG_NAME_MAX_CHARS
}

/// The tags attached for `names`, each kept name trimmed and paired with its
/// color.
pub open spec fn tag_plan_of(names: Seq<Seq<char>>) -> Seq<(Seq<char>, Seq<char>)>
    decreases names.len(),
{
    if names.len() == 0 {
        Seq::empty()
    } else {
        let rest = tag_plan_of(names.drop_last());
        if tag_name_kept(names.last()) {
            rest.push((trimmed(names.last()), tag_color_spec(trimmed(names.last()))))
        } else {
            rest
        }
    }
}

/// The tags an edit attaches: those kept among the first [`TAG_LIMIT`] names.
pub open spec fn tag_plan(names: Seq<Seq<char>>) -> Seq<(Seq<char>, Seq<char>)> {
    if names.len() <= TAG_LIMIT {
        tag_plan_of(names)
    } else {
        tag_plan_of(names.take(TAG_LIMIT as int))
    }
}

/// The view of an edit.
pub open spec fn update_view(u: ItemMetadataUpdate) -> (
    Seq<char>,
    Option<Seq<char>>,
    Seq<(i64, i64)>,
    Seq<(Seq<char>, Seq<char>)>,
) {
    (
        u.title@,
        match u.description {
            Some(d) => Some(d@),
            None => None,
        },
        u.collections@,
        u.tags@.map_values(|t: TagAssignment| (t.name@, t.color@)),
    )
}

/// What an edit of an item's title, note, collections and tags stores, or
/// its refusal.
pub open spec fn item_update_spec(
    title: Seq<char>,
    description: Seq<char>,
    ids: Seq<i64>,
    names: Seq<Seq<char>>,
) -> Result<
    (Seq<char>, Option<Seq<char>>, Seq<(i64, i64)>, Seq<(Seq<char>, Seq<char>)>),
    Seq<char>,
> {
    let t = trimmed(title);
    let d = trimmed(description);
    if t.len() == 0 || t.len() > TITLE_MAX_CHARS {
        Err(TITLE_RANGE@)
    } else if d.len() > NOTE_MAX_CHARS {
        Err(NOTE_TOO_LONG@)
    } else {
        Ok(
            (
                t,
                if d.len() == 0 {
                    None
                } else {
                    Some(d)
                },
                collection_plan(ids),
                tag_plan(names),
            ),
        )
    }
}

proof fn lemma_tag_plan_of_bounds(names: Seq<Seq<char>>)
    ensures
        tag_plan_of(names).len() <= names.len(),
        forall|i: int|
            0 <= i < tag_plan_of(names).len() ==> 0 < (#[trigger] tag_plan_of(names)[i]).0.len()
                <= TAG_NAME_MAX_CHARS,
    decreases names.len(),
{
    if names.len() > 0 {
        lemma_tag_plan_of_bounds(names.drop_last());
    }
}

/// An accepted edit stays within the library's limits: the title has 1 to
/// [`TITLE_MAX_CHARS`] chars, a stored note 1 to [`NOTE_MAX_CHARS`], the item
/// is in at most [`COLLECTION_LIMIT`] collections whose positions are their
/// indexes, and it gets at most [`TAG_LIMIT`] tags, each named with 1 to
/// [`TAG_NAME_MAX_CHARS`] chars.
pub proof fn law_item_update_within_limits(
    title: Seq<char>,
    description: Seq<char>,
    ids: Seq<i64>,
    names: Seq<Seq<char>>,
)
    ensures
        item_update_spec(title, description, ids, names) matches Ok((t, d, cols, tags)) ==> {
            &&& 0 < t.len() <= TITLE_MAX_CHARS
            &&& d matches Some(note) ==> 0 < note.len() <= NOTE_MAX_CHARS
            &&& cols.len() <= COLLECTION_LIMIT
            &&& forall|i: int| 0 <= i < cols.len() ==> (#[trigger] cols[i]).1 == i
            &&& tags.len() <= TAG_LIMIT
            &&& forall|i: int| 0 <= i < tags.len() ==> 0 < (#[trigger] tags[i]).0.len()
                <= TAG_NAME_MAX_CHARS
        },
{
    if names.len() <= TAG_LIMIT {
        lemma_tag_plan_of_bounds(names);
    } else {
        lemma_tag_plan_of_bounds(names.take(TAG_LIMIT as int));
    }
}

/// The length of `s` in chars.
fn char_count(s: &str) -> (n: usize)
    ensures
        n == s@.len(),
{
    chars_of(s).len()
}

/// The tags attached for `names`.
fn plan_tags(names: &Vec<String>) -> (r: Vec<TagAssignment>)
    ensures
        r@.map_values(|t: TagAssignment| (t.name@, t.color@)) == tag_plan(
            names@.map_values(|s: String| s@),
        ),
{
    let ghost all = names@.map_values(|s: String| s@);
    let ghost limited = if all.len() <= TAG_LIMIT {
        all
    } else {
        all.take(TAG_LIMIT as int)
    };
    let n = if names.len() <= TAG_LIMIT {
        names.len()
    } else {
        TAG_LIMIT
    };
    let mut r: Vec<TagAssignment> = Vec::new();
    let mut i: usize = 0;
    while i < n
        invariant
            i <= n <= names.len(),
            all == names@.map_values(|s: String| s@),
            n == limited.len(),
            limited == (if all.len() <= TAG_LIMIT {
                all
            } else {
                all.take(TAG_LIMIT as int)
            }),
            r@.map_values(|t: TagAssignment| (t.name@, t.color@)) == tag_plan_of(
                limited.take(i as int),
            ),
        decreases n - i,
    {
        proof {
            assert(limited.take(i + 1).drop_last() =~= limited.take(i as int));
            assert(limited.take(i + 1).last() == names@[i as int]@);
        }
        let name = trim(names[i].as_str());
        let count = char_count(name.as_str());
        if 0 < count && count <= TAG_NAME_MAX_CHARS {
            let color = tag_color(name.as_str());
            let ghost before = r@;
            r.push(TagAssignment { name, color });
            assert(r@.map_values(|t: TagAssignment| (t.name@, t.color@)) =~= before.map_values(
                |t: TagAssignment| (t.name@, t.color@),
            ).push((r@.last().name@, r@.last().color@)));
        }
        i = i + 1;
    }
    assert(limited.take(n as int) =~= limited);
    r
}

/// Checks and prepares an edit of an item: the title is trimmed and must
/// have 1 to [`TITLE_MAX_CHARS`] chars, the note is trimmed, must have at
/// most [`NOTE_MAX_CHARS`] chars and is dropped when empty, the item is put
/// in the first [`COLLECTION_LIMIT`] collections given, at their positions,
/// and gets the tags named among the first [`TAG_LIMIT`] names that have 1
/// to [`TAG_NAME_MAX_CHARS`] chars once trimmed.
pub fn plan_item_metadata_update(
    title: &str,
    description: &str,
    collection_ids: &Vec<i64>,
    tag_names: &Vec<String>,
) -> (res: Result<ItemMetadataUpdate, String>)
    ensures
        match res {
            Ok(u) => item_update_spec(
                title@,
                description@,
                collection_ids@,
                tag_names@.map_values(|s: String| s@),
            ) == Ok::<_, Seq<char>>(update_view(u)),
            Err(e) => item_update_spec(
                title@,
                description@,
                collection_ids@,
                tag_names@.map_values(|s: String| s@),
            ) == Err::<(Seq<char>, Option<Seq<char>>, Seq<(i64, i64)>, Seq<(Seq<char>, Seq<char>)>), Seq<char>>(e@),
        },
{
    let t = trim(title);
    let title_chars = char_count(t.as_str());
    if title_chars == 0 || title_chars > TITLE_MAX_CHARS {
        return Err(copy_of(TITLE_RANGE));
    }
    let d = trim(description);
    let note_chars = char_count(d.as_str());
    if note_chars > NOTE_MAX_CHARS {
        return Err(copy_of(NOTE_TOO_LONG));
    }
    let description = if note_chars == 0 {
        None
    } else {
        Some(d)
    };
    let n = if collection_ids.len() <= COLLECTION_LIMIT {
        collection_ids.len()
    } else {
        COLLECTION_LIMIT
    };
    let mut collections: Vec<(i64, i64)> = Vec::new();
    let mut i: usize = 0;
    while i < n
        invariant
            i <= n <= collection_ids.len(),
            n <= COLLECTION_LIMIT,
            collections@ =~= Seq::new(i as nat, |k: int| (collection_ids@[k], k as i64)),
        decreases n - i,
    {
        collections.push((collection_ids[i], i as i64));
        i = i + 1;
    }
    let tags = plan_tags(tag_names);
    let update = ItemMetadataUpdate { title: t, description, collections, tags };
    assert(update_view(update).2 =~= collection_plan(collection_ids@));
    Ok(update)
}

// ---------------------------------------------------------------------------
// Collections
// ---------------------------------------------------------------------------

/// The longest collection name, in chars.
pub const COLLECTION_NAME_MAX_CHARS: usize = 60;

/// Refusal of a collection name that is empty or too long.
pub const COLLECTION_NAME_RANGE: &'static str = "Koleksiyon adı 1–60 karakter olmalı.";

/// The color of a collection created without a valid one.
pub const DEFAULT_COLLECTION_COLOR: &'static str = "#8b5cf6";

/// The icon of a collection created without one.
pub const DEFAULT_COLLECTION_ICON: &'static str = "sparkles";

/// What a new collection stores.
pub struct NewCollection {
    /// The trimmed name.
    pub name: String,
    /// The color as given, or the default one.
    pub color: String,
    /// The icon as given, or the default one.
    pub icon: String,
}

/// A color kept as given: `#` and six more bytes.
pub open spec fn color_kept(color: Seq<char>) -> bool {
    color.len() > 0 && color[0] == '#' && encode_utf8(color).len() == 7
}

/// What a new collection stores, or the refusal of its name.
pub open spec fn new_collection_spec(name: Seq<char>, color: Seq<char>, icon: Seq<char>) -> Result<
    (Seq<char>, Seq<char>, Seq<char>),
    Seq<char>,
> {
    let n = trimmed(name);
    if n.len() == 0 || n.len() > COLLECTION_NAME_MAX_CHARS {
        Err(COLLECTION_NAME_RANGE@)
    } else {
        Ok(
            (
                n,
                if color_kept(color) {
                    color
                } else {
                    DEFAULT_COLLECTION_COLOR@
                },
                if trimmed(icon).len() == 0 {
                    DEFAULT_COLLECTION_ICON@
                } else {
                    icon
                },
            ),
        )
    }
}

/// Checks and prepares a new collection: the name is trimmed and must have 1
/// to [`COLLECTION_NAME_MAX_CHARS`] chars, a color that is not `#` and six
/// more bytes becomes the default color, and a blank icon the default icon.
pub fn prepare_collection(name: &str, color: String, icon: String) -> (res: Result<
    NewCollection,
    String,
>)
    ensures
        match res {
            Ok(c) => new_collection_spec(name@, color@, icon@) == Ok::<_, Seq<char>>(
                (c.name@, c.color@, c.icon@),
            ),
            Err(e) => new_collection_spec(name@, color@, icon@) == Err::<
                (Seq<char>, Seq<char>, Seq<char>),
                Seq<char>,
            >(e@),
        },
{
    let n = trim(name);
    let count = char_count(n.as_str());
    if count == 0 || count > COLLECTION_NAME_MAX_CHARS {
        return Err(copy_of(COLLECTION_NAME_RANGE));
    }
    let cv = chars_of(color.as_str());
    let keep_color = cv.len() > 0 && cv[0] == '#' && color.as_str().as_bytes().len() == 7;
    assert(keep_color == color_kept(color@));
    let kept_color = if keep_color {
        color
    } else {
        copy_of(DEFAULT_COLLECTION_COLOR)
    };
    let trimmed_icon = trim(icon.as_str());
    let blank_icon = char_count(trimmed_icon.as_str()) == 0;
    assert(blank_icon == (trimmed(icon@).len() == 0));
    let kept_icon = if blank_icon {
        copy_of(DEFAULT_COLLECTION_ICON)
    } else {
        icon
    };
    Ok(NewCollection { name: n, color: kept_color, icon: kept_icon })
}

// ---------------------------------------------------------------------------
// Web items
// ---------------------------------------------------------------------------

/// The title of a link whose host is unknown.
pub const LINK_FALLBACK_TITLE: &'static str = "Bağlantı";

/// `s` without its leading `www.` prefixes (`str::trim_start_matches("www.")`).
pub open spec fn strip_www(s: Seq<char>) -> Seq<char>
    decreases s.len(),
{
    if s.len() >= 4 && s[0] == 'w' && s[1] == 'w' && s[2] == 'w' && s[3] == '.' {
        strip_www(s.skip(4))
    } else {
        s
    }
}

/// The title stored for a web item: the page's own title when it has one,
/// otherwise the host without leading `www.`, or a generic title.
pub open spec fn url_item_title_spec(host: Option<Seq<char>>, fetched: Option<Seq<char>>) -> Seq<
    char,
> {
    match fetched {
        Some(t) => t,
        None => strip_www(
            match host {
                Some(h) => h,
                None => LINK_FALLBACK_TITLE@,
            },
        ),
    }
}

/// The title stored for a web item.
pub fn url_item_title(url: &WebUrl, fetched: Option<String>) -> (t: String)
    ensures
        t@ == url_item_title_spec(
            url@.host,
            match fetched {
                Some(f) => Some(f@),
                None => None,
            },
        ),
{
    if let Some(f) = fetched {
        return f;
    }
    let v = match url.host_str() {
        Some(h) => chars_of(h),
        None => chars_of(LINK_FALLBACK_TITLE),
    };
    let mut i: usize = 0;
    assert(v@.skip(0) =~= v@);
    while v.len() - i >= 4 && v[i] == 'w' && v[i + 1] == 'w' && v[i + 2] == 'w' && v[i + 3] == '.'
        invariant
            i <= v.len(),
            strip_www(v@.skip(i as int)) == strip_www(v@),
        decreases v.len() - i,
    {
        proof {
            let w = v@.skip(i as int);
            assert(w[0] == 'w' && w[1] == 'w' && w[2] == 'w' && w[3] == '.');
            assert(w.skip(4) =~= v@.skip(i + 4));
            assert(strip_www(w) == strip_www(w.skip(4)));
        }
        i = i + 4;
    }
    assert(v@.subrange(i as int, v.len() as int) =~= v@.skip(i as int));
    crate::text::string_of(&v, i, v.len())
}

// ---------------------------------------------------------------------------
// Local items
// ---------------------------------------------------------------------------

/// The most paths one addition reads.
pub const LOCAL_PATH_LIMIT: usize = 200;

/// The paths an addition reads: the first [`LOCAL_PATH_LIMIT`].
pub fn accepted_local_paths(paths: Vec<String>) -> (r: Vec<String>)
    ensures
        r@ == (if paths@.len() <= LOCAL_PATH_LIMIT {
            paths@
        } else {
            paths@.take(LOCAL_PATH_LIMIT as int)
        }),
{
    let mut r = paths;
    if r.len() > LOCAL_PATH_LIMIT {
        r.truncate(LOCAL_PATH_LIMIT);
    }
    r
}

/// `std::path::Path::parent` of `location`, as UTF-8. Which components the
/// platform's path rules see depends on the platform, so the parent itself is
/// not stated. Its documentation gives it as the path without its final
/// component (`Components::as_path` of what is left, a slice from the start
/// of the path), so it is a prefix of `location`; a prefix that ends at a
/// separator of a UTF-8 text is itself UTF-8, so `to_str` keeps it.
#[verifier::external_body]
fn path_parent(location: &str) -> (r: Option<String>)
    ensures
        r matches Some(p) ==> has_prefix(location@, p@),
{
    match std::path::Path::new(location).parent() {
        Some(parent) => parent.to_str().map(str::to_string),
        None => None,
    }
}

/// A local file or folder about to be stored.
pub struct LocalCandidate {
    /// `folder` or `file`.
    pub kind: &'static str,
    /// The file name, or the whole location when it has none.
    pub title: String,
    /// The location as found.
    pub location: String,
    /// The location in lower case, which identifies the item.
    pub normalized: String,
    /// The cached thumbnail, if one was made.
    pub icon_path: Option<String>,
}

/// The kind of a local item.
pub open spec fn local_kind(is_dir: bool) -> Seq<char> {
    if is_dir {
        "folder"@
    } else {
        "file"@
    }
}

/// The title of a local item: its non-empty file name, or its location.
pub open spec fn local_title(location: Seq<char>, file_name: Option<Seq<char>>) -> Seq<char> {
    match file_name {
        Some(n) => if n.len() > 0 {
            n
        } else {
            location
        },
        None => location,
    }
}

/// A local item, given what the file system said of its location.
pub fn local_candidate(
    location: String,
    file_name: Option<String>,
    is_dir: bool,
    icon_path: Option<String>,
) -> (c: LocalCandidate)
    ensures
        c.kind@ == local_kind(is_dir),
        c.title@ == local_title(
            location@,
            match file_name {
                Some(n) => Some(n@),
                None => None,
            },
        ),
        c.location@ == location@,
        c.normalized@ == unicode_lowercase(location@),
        c.icon_path == icon_path,
{
    let normalized = to_lowercase(location.as_str());
    let kind = if is_dir {
        "folder"
    } else {
        "file"
    };
    let title = match file_name {
        Some(n) => if char_count(n.as_str()) > 0 {
            n
        } else {
            copy_of(location.as_str())
        },
        None => copy_of(location.as_str()),
    };
    LocalCandidate { kind, title, location, normalized, icon_path }
}

/// The state stored for a local item that is there.
pub const STATUS_AVAILABLE: &'static str = "available";

/// The state stored for a local item on a drive or share that is not there.
pub const STATUS_OFFLINE: &'static str = "offline";

/// The state stored for a local item that is gone.
pub const STATUS_MISSING: &'static str = "missing";

/// A path whose second byte is `:` and that has at least three bytes names a
/// drive.
pub open spec fn names_drive(bytes: Seq<u8>) -> bool {
    bytes.len() >= 3 && bytes[1] == 58
}

/// The root of the drive a path names: its first byte as a char, `:` and `\`.
pub open spec fn drive_root_spec(path: Seq<char>) -> Option<Seq<char>> {
    let b = encode_utf8(path);
    if names_drive(b) {
        Some(seq![b[0] as char, ':', '\\'])
    } else {
        None
    }
}

/// A UNC path, starting with two backslashes.
pub open spec fn is_unc(path: Seq<char>) -> bool {
    path.len() >= 2 && path[0] == '\\' && path[1] == '\\'
}

/// The state of a local item: `available` when its path exists; otherwise
/// `offline` when it is on a network share or on a drive whose root does not
/// exist, and `missing` when its drive is there but it is not.
pub open spec fn resource_status_spec(path: Seq<char>, exists: bool, drive_root_exists: bool) -> Seq<
    char,
> {
    if exists {
        STATUS_AVAILABLE@
    } else if is_unc(path) {
        STATUS_OFFLINE@
    } else if drive_root_spec(path) is Some && !drive_root_exists {
        STATUS_OFFLINE@
    } else {
        STATUS_MISSING@
    }
}

/// The root of the drive `path` names, which decides between `offline` and
/// `missing` when the path does not exist.
pub fn drive_root(path: &str) -> (r: Option<String>)
    ensures
        match r {
            Some(s) => drive_root_spec(path@) == Some(s@),
            None => drive_root_spec(path@) is None,
        },
{
    let b = path.as_bytes();
    if b.len() >= 3 && b[1] == 58 {
        let first = b[0] as char;
        let mut v: Vec<char> = Vec::new();
        v.push(first);
        v.push(':');
        v.push('\\');
        assert(v@ =~= seq![b@[0] as char, ':', '\\']);
        Some(string_of_all(&v))
    } else {
        None
    }
}

/// The state of the local item at `path`, given whether the path exists and,
/// for a path on a drive, whether the drive's root exists.
pub fn local_resource_status(path: &str, exists: bool, drive_root_exists: bool) -> (s: &'static str)
    ensures
        s@ == resource_status_spec(path@, exists, drive_root_exists),
{
    if exists {
        return STATUS_AVAILABLE;
    }
    let v = chars_of(path);
    if v.len() >= 2 && v[0] == '\\' && v[1] == '\\' {
        return STATUS_OFFLINE;
    }
    let b = path.as_bytes();
    if b.len() >= 3 && b[1] == 58 && !drive_root_exists {
        return STATUS_OFFLINE;
    }
    STATUS_MISSING
}

/// The thumbnail kept for a local item after a refresh: a fresh one, or the
/// previous one, for an available item; the previous one otherwise.
pub fn refreshed_icon_path(status: &str, fresh: Option<String>, previous: Option<String>) -> (r:
    Option<String>)
    ensures
        r == (if status@ == STATUS_AVAILABLE@ {
            match fresh {
                Some(f) => Some(f),
                None => previous,
            }
        } else {
            previous
        }),
{
    if same_text(status, STATUS_AVAILABLE) {
        match fresh {
            Some(f) => Some(f),
            None => previous,
        }
    } else {
        previous
    }
}

/// What is opened to reveal an item: the folder that holds a file, and a
/// folder or link itself.
pub open spec fn reveal_target_spec(kind: Seq<char>, location: Seq<char>, parent: Option<
    Seq<char>,
>) -> Seq<char> {
    if kind == "file"@ {
        match parent {
            Some(p) => p,
            None => Seq::empty(),
        }
    } else {
        location
    }
}

/// What is opened to reveal an item, given the parent of its location.
pub fn reveal_target(kind: &str, location: &str, parent: Option<String>) -> (t: String)
    ensures
        t@ == reveal_target_spec(
            kind@,
            location@,
            match parent {
                Some(p) => Some(p@),
                None => None,
            },
        ),
{
    if same_text(kind, "file") {
        match parent {
            Some(p) => p,
            None => String::new(),
        }
    } else {
        copy_of(location)
    }
}

/// What is opened to reveal an item, with the parent that the platform's path
/// rules give its location: the item itself unless it is a file, and for a
/// file a prefix of its location (empty when it has no parent).
pub fn reveal_location(kind: &str, location: &str) -> (t: String)
    ensures
        exists|parent: Option<Seq<char>>|
            #![trigger reveal_target_spec(kind@, location@, parent)]
            (parent matches Some(p) ==> has_prefix(location@, p)) && t@ == reveal_target_spec(
                kind@,
                location@,
                parent,
            ),
        kind@ != "file"@ ==> t@ == location@,
        kind@ == "file"@ ==> has_prefix(location@, t@),
{
    let parent = path_parent(location);
    let ghost p = opt_view(parent);
    let t = reveal_target(kind, location, parent);
    assert(t@ == reveal_target_spec(kind@, location@, p));
    assert(location@.take(0) =~= Seq::<char>::empty());
    t
}

// ---------------------------------------------------------------------------
// Icons
// ---------------------------------------------------------------------------

/// A data URL: `data:`, the media type, `;base64,` and the base64 of the
/// bytes.
pub open spec fn data_url_spec(media: Seq<char>, bytes: Seq<u8>) -> Seq<char> {
    "data:"@ + media + ";base64,"@ + base64_standard(bytes)
}

/// The media type given when nothing is known of the bytes.
pub const OCTET_STREAM: &'static str = "application/octet-stream";

/// `s` holds no `.`.
pub open spec fn has_no_dot(s: Seq<char>) -> bool {
    forall|i: int| 0 <= i < s.len() ==> s[i] != '.'
}

/// `mime_guess::from_path(path).first_or_octet_stream()`, as its essence
/// string. It goes by `std::path::Path::extension`, which depends on the path
/// conventions of the platform, so the guess itself is not stated. Both
/// documentations give what a path without any `.` yields: it has no
/// extension, so the guess is empty, and `application/octet-stream` is
/// handed back.
#[verifier::external_body]
fn guess_media_type(path: &str) -> (r: String)
    ensures
        has_no_dot(path@) ==> r@ == OCTET_STREAM@,
{
    mime_guess::from_path(path).first_or_octet_stream().essence_str().to_string()
}

/// The data URL of `bytes` with media type `media`.
pub fn data_url(media: &str, bytes: &[u8]) -> (u: String)
    ensures
        u@ == data_url_spec(media@, bytes@),
{
    let encoded = base64_encode(bytes);
    let a = joined("data:", media);
    let b = joined(a.as_str(), ";base64,");
    joined(b.as_str(), encoded.as_str())
}

/// The data URL of an icon file read from `path`, with the media type guessed
/// from the path's extension; `application/octet-stream` for a path without
/// any `.`.
pub fn icon_as_data_url(path: &str, bytes: &[u8]) -> (u: String)
    ensures
        exists|media: Seq<char>| u@ == data_url_spec(media, bytes@),
        has_no_dot(path@) ==> u@ == data_url_spec(OCTET_STREAM@, bytes@),
{
    let media = guess_media_type(path);
    data_url(media.as_str(), bytes)
}

/// The bytes a local item's thumbnail name is hashed from: its path in lower
/// case as UTF-8, then, when its metadata could be read, its length and, when
/// known, its modification time in seconds, each as eight little-endian
/// bytes.
pub open spec fn shell_image_key(path: Seq<char>, metadata: Option<(u64, Option<u64>)>) -> Seq<u8> {
    let name = encode_utf8(unicode_lowercase(path));
    match metadata {
        None => name,
        Some((len, modified)) => match modified {
            None => name + le_bytes(len as nat, 8),
            Some(secs) => name + le_bytes(len as nat, 8) + le_bytes(secs as nat, 8),
        },
    }
}

/// The name a thumbnail is cached under holds only digits, lower-case
/// letters, `-` and `.`, so it never leaves the icon directory it is written
/// to.
pub proof fn law_shell_image_names_are_plain(path: Seq<char>, metadata: Option<(u64, Option<u64>)>)
    ensures
        plain_name("shell-"@ + hex_lower(sha256(shell_image_key(path, metadata))) + ".png"@),
{
    reveal_strlit("shell-");
    reveal_strlit(".png");
    let hash = hex_lower(sha256(shell_image_key(path, metadata)));
    lemma_hex_lower_plain(sha256(shell_image_key(path, metadata)));
    assert(plain_name("shell-"@));
    assert(plain_name(".png"@));
    lemma_plain_name_concat("shell-"@, hash);
    lemma_plain_name_concat("shell-"@ + hash, ".png"@);
}

/// The name of the file a local item's thumbnail is cached in: `shell-`, the
/// lower-case hexadecimal SHA-256 digest of its key, and `.png`.
pub fn shell_image_file_name(path: &str, metadata: Option<(u64, Option<u64>)>) -> (n: String)
    ensures
        n@ == "shell-"@ + hex_lower(sha256(shell_image_key(path@, metadata))) + ".png"@,
{
    let lower = to_lowercase(path);
    let lb = lower.as_str().as_bytes();
    let mut key: Vec<u8> = Vec::new();
    let mut i: usize = 0;
    while i < lb.len()
        invariant
            i <= lb.len(),
            key@ == lb@.take(i as int),
        decreases lb.len() - i,
    {
        key.push(lb[i]);
        assert(lb@.take(i + 1) =~= lb@.take(i as int).push(lb@[i as int]));
        i = i + 1;
    }
    assert(lb@.take(lb.len() as int) =~= lb@);
    match metadata {
        None => {},
        Some((len, modified)) => {
            push_le_bytes(&mut key, len);
            match modified {
                None => {},
                Some(secs) => {
                    push_le_bytes(&mut key, secs);
                },
            }
        },
    }
    let hash = sha256_hex(key.as_slice());
    let a = joined("shell-", hash.as_str());
    joined(a.as_str(), ".png")
}

} // verus!
