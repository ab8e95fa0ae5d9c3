//! Feed entries and feed documents built from enriched crates.
use crate::parser::{site_root, Crate, CrateMeta};
use crate::time::{display_of, rfc2822_of, to_display_text, to_rfc2822, Timestamp};
use rss::{Channel, ChannelBuilder, Guid, Item, ItemBuilder};
use uuid::Uuid;
use vstd::prelude::*;
use vstd::string::*;

verus! {

#[verifier::external_type_specification]
#[verifier::external_body]
pub struct ExItem(Item);

#[verifier::external_type_specification]
#[verifier::external_body]
pub struct ExChannel(Channel);

/// Whether entries carry a derived identifier, also appended to their links.
#[derive(Clone, Copy, Debug, PartialEq, Eq)]
pub enum IdentifierMode {
    /// No identifier; the link is the crate's page.
    Plain,
    /// An identifier from title and last update, appended to the link as `?hash=`.
    Derived,
}

/// One item of a feed.
#[derive(Debug)]
pub struct FeedEntry {
    pub title: String,
    pub link: String,
    /// The last update in RFC 2822 form.
    pub pub_date: String,
    /// `urn:uuid:...`, where there is an identifier.
    pub guid: Option<String>,
    /// Whether feed readers may take the guid for the entry's address.
    pub guid_is_permalink: bool,
    pub description: String,
    pub content: String,
}

/// A feed: a titled channel and its items.
#[derive(Debug)]
pub struct FeedDocument {
    pub title: String,
    pub link: String,
    pub description: String,
    pub items: Vec<FeedEntry>,
}

/// What uuid's `Uuid::new_v5` gives for a namespace and the UTF-8 bytes of a name.
pub uninterp spec fn v5_uuid(namespace: Seq<u8>, name: Seq<char>) -> Seq<u8>;

/// The URL namespace of RFC 4122, `6ba7b811-9dad-11d1-80b4-00c04fd430c8`.
pub open spec fn url_namespace_spec() -> Seq<u8> {
    seq![0x6bu8, 0xa7, 0xb8, 0x11, 0x9d, 0xad, 0x11, 0xd1, 0x80, 0xb4, 0x00, 0xc0, 0x4f, 0xd4, 0x30, 0xc8]
}

pub open spec fn hex_digit(n: int) -> char {
    seq!['0', '1', '2', '3', '4', '5', '6', '7', '8', '9', 'a', 'b', 'c', 'd', 'e', 'f'][n]
}

/// Two lower-case hex digits per byte.
pub open spec fn hex_of(b: Seq<u8>) -> Seq<char>
    decreases b.len(),
{
    if b.len() == 0 {
        seq![]
    } else {
        seq![hex_digit(b[0] as int / 16), hex_digit(b[0] as int % 16)] + hex_of(b.drop_first())
    }
}

/// The hyphenated text form of a UUID, in groups of 8-4-4-4-12 digits.
pub open spec fn hyphenated(b: Seq<u8>) -> Seq<char> {
    hex_of(b.subrange(0, 4)) + seq!['-'] + hex_of(b.subrange(4, 6)) + seq!['-'] + hex_of(
        b.subrange(6, 8),
    ) + seq!['-'] + hex_of(b.subrange(8, 10)) + seq!['-'] + hex_of(b.subrange(10, 16))
}

/// Two hex digits per byte.
pub proof fn lemma_hex_len(b: Seq<u8>)
    ensures
        hex_of(b).len() == 2 * b.len(),
    decreases b.len(),
{
    if b.len() > 0 {
        lemma_hex_len(b.drop_first());
    }
}

/// The text form of a UUID has 36 characters.
pub proof fn lemma_hyphenated_len(b: Seq<u8>)
    requires
        b.len() == 16,
    ensures
        hyphenated(b).len() == 36,
{
    lemma_hex_len(b.subrange(0, 4));
    lemma_hex_len(b.subrange(4, 6));
    lemma_hex_len(b.subrange(6, 8));
    lemma_hex_len(b.subrange(8, 10));
    lemma_hex_len(b.subrange(10, 16));
}

/// The namespace of every identifier: the v5 UUID of the site's URL.
pub open spec fn site_namespace_spec() -> Seq<u8> {
    v5_uuid(url_namespace_spec(), site_root())
}

/// The name an identifier is derived from: title, `-`, last update.
pub open spec fn identifier_name(title: Seq<char>, last_update: Timestamp) -> Seq<char> {
    title + seq!['-'] + display_of(last_update)
}

/// The identifier of a crate, as text.
pub open spec fn identifier_of(title: Seq<char>, last_update: Timestamp) -> Seq<char> {
    hyphenated(v5_uuid(site_namespace_spec(), identifier_name(title, last_update)))
}

pub open spec fn version_text(v: Option<String>) -> Seq<char> {
    match v {
        Some(s) => s@,
        None => seq![],
    }
}

/// Title, a space, and the version where there is one.
pub open spec fn entry_title(m: CrateMeta) -> Seq<char> {
    m.title@ + seq![' '] + version_text(m.version)
}

pub open spec fn guid_of(c: Crate) -> Seq<char> {
    "urn:uuid:"@ + identifier_of(c.meta.title@, c.last_update)
}

pub open spec fn link_of(c: Crate, mode: IdentifierMode) -> Seq<char> {
    match mode {
        IdentifierMode::Plain => site_root() + c.meta.url@,
        IdentifierMode::Derived => site_root() + c.meta.url@ + "?hash="@ + identifier_of(
            c.meta.title@,
            c.last_update,
        ),
    }
}

/// `e` is the feed entry of `c`.
pub open spec fn entry_of(e: FeedEntry, c: Crate, mode: IdentifierMode) -> bool {
    &&& e.title@ == entry_title(c.meta)
    &&& e.link@ == link_of(c, mode)
    &&& e.pub_date@ == rfc2822_of(c.last_update)
    &&& match mode {
        IdentifierMode::Plain => e.guid is None,
        IdentifierMode::Derived => e.guid is Some && e.guid->0@ == guid_of(c),
    }
    &&& !e.guid_is_permalink
    &&& e.description@ == c.meta.description@
    &&& e.content@ == c.content@
}

pub open spec fn channel_title(desc: Seq<char>) -> Seq<char> {
    "Lib.rs - "@ + desc
}

pub open spec fn channel_description() -> Seq<char> {
    "Recently published Rust libraries and applications"@
}

/// Relies on uuid's `Uuid::NAMESPACE_URL`.
#[verifier::external_body]
fn url_namespace() -> (r: [u8; 16])
    ensures
        r@ == url_namespace_spec(),
{
    *Uuid::NAMESPACE_URL.as_bytes()
}

/// Relies on uuid's `Uuid::new_v5`, whose result depends on the namespace and
/// the name's bytes alone.
#[verifier::external_body]
fn name_based_uuid(namespace: [u8; 16], name: &str) -> (r: [u8; 16])
    ensures
        r@ == v5_uuid(namespace@, name@),
{
    *Uuid::new_v5(&Uuid::from_bytes(namespace), name.as_bytes()).as_bytes()
}

/// Relies on uuid's `Display` for `Uuid`: lower-case hex in hyphenated groups.
#[verifier::external_body]
fn uuid_text(b: [u8; 16]) -> (r: String)
    ensures
        r@ == hyphenated(b@),
{
    Uuid::from_bytes(b).to_string()
}

/// The title an rss `Item` holds.
pub uninterp spec fn item_title(i: Item) -> Option<Seq<char>>;

/// The link an rss `Item` holds.
pub uninterp spec fn item_link(i: Item) -> Option<Seq<char>>;

/// The publish date an rss `Item` holds.
pub uninterp spec fn item_pub_date(i: Item) -> Option<Seq<char>>;

/// The value of the guid an rss `Item` holds.
pub uninterp spec fn item_guid(i: Item) -> Option<Seq<char>>;

/// The permalink flag of the guid an rss `Item` holds.
pub uninterp spec fn item_guid_permalink(i: Item) -> Option<bool>;

/// The description an rss `Item` holds.
pub uninterp spec fn item_description(i: Item) -> Option<Seq<char>>;

/// The content an rss `Item` holds.
pub uninterp spec fn item_content(i: Item) -> Option<Seq<char>>;

/// The title an rss `Channel` holds.
pub uninterp spec fn rss_channel_title(c: Channel) -> Seq<char>;

/// The link an rss `Channel` holds.
pub uninterp spec fn rss_channel_link(c: Channel) -> Seq<char>;

/// The description an rss `Channel` holds.
pub uninterp spec fn rss_channel_description(c: Channel) -> Seq<char>;

/// The items an rss `Channel` holds, in order.
pub uninterp spec fn rss_channel_items(c: Channel) -> Seq<Item>;

pub open spec fn opt_text(o: Option<String>) -> Option<Seq<char>> {
    match o {
        Some(s) => Some(s@),
        None => None,
    }
}

/// `it` is the rss item of the crate `c`: it holds the fields of `c`'s entry.
pub open spec fn item_of(it: Item, c: Crate, mode: IdentifierMode) -> bool {
    &&& item_title(it) == Some(entry_title(c.meta))
    &&& item_link(it) == Some(link_of(c, mode))
    &&& item_pub_date(it) == Some(rfc2822_of(c.last_update))
    &&& match mode {
        IdentifierMode::Plain => item_guid(it) is None && item_guid_permalink(it) is None,
        IdentifierMode::Derived => item_guid(it) == Some(guid_of(c)) && item_guid_permalink(it)
            == Some(false),
    }
    &&& item_description(it) == Some(c.meta.description@)
    &&& item_content(it) == Some(c.content@)
}

/// Relies on rss's `ItemBuilder`: each setter stores its value in the item's
/// field of that name, and `build` returns the item.
#[verifier::external_body]
fn rss_item(e: &FeedEntry) -> (r: Item)
    ensures
        item_title(r) == Some(e.title@),
        item_link(r) == Some(e.link@),
        item_pub_date(r) == Some(e.pub_date@),
        item_guid(r) == opt_text(e.guid),
        item_guid_permalink(r) == (if e.guid is Some { Some(e.guid_is_permalink) } else { None }),
        item_description(r) == Some(e.description@),
        item_content(r) == Some(e.content@),
{
    ItemBuilder::default()
        .title(e.title.clone())
        .link(e.link.clone())
        .pub_date(e.pub_date.clone())
        .guid(e.guid.clone().map(|value| Guid { value, permalink: e.guid_is_permalink }))
        .description(e.description.clone())
        .content(e.content.clone())
        .build()
}

/// Relies on rss's `ChannelBuilder`: each setter stores its value in the
/// channel's field of that name, and `build` returns the channel.
#[verifier::external_body]
fn rss_channel(title: String, link: String, description: String, items: Vec<Item>) -> (r: Channel)
    ensures
        rss_channel_title(r) == title@,
        rss_channel_link(r) == link@,
        rss_channel_description(r) == description@,
        rss_channel_items(r) == items@,
{
    ChannelBuilder::default().title(title).link(link).description(description).items(items).build()
}

/// The identifier of a crate with this title and last update.
pub fn generate_uuid(title: &str, last_update: &Timestamp) -> (r: String)
    requires
        last_update.wf(),
    ensures
        r@ == identifier_of(title@, *last_update),
        r@.len() == 36,
{
    let root = String::from_str("https://lib.rs");
    proof {
        reveal_strlit("https://lib.rs");
    }
    let namespace = name_based_uuid(url_namespace(), root.as_str());
    let name = String::from_str(title).concat("-").concat(to_display_text(last_update).as_str());
    proof {
        reveal_strlit("-");
        assert(name@ =~= identifier_name(title@, *last_update));
        assert(root@ =~= site_root());
    }
    let id = name_based_uuid(namespace, name.as_str());
    proof {
        lemma_hyphenated_len(id@);
    }
    uuid_text(id)
}

/// The feed entry of one crate.
pub fn build_entry(c: &Crate, mode: IdentifierMode) -> (r: FeedEntry)
    requires
        c.last_update.wf(),
    ensures
        entry_of(r, *c, mode),
        identifier_of(c.meta.title@, c.last_update).len() == 36,
{
    let title = match &c.meta.version {
        Some(v) => c.meta.title.clone().concat(" ").concat(v.as_str()),
        None => c.meta.title.clone().concat(" "),
    };
    proof {
        reveal_strlit(" ");
        assert(title@ =~= entry_title(c.meta));
    }
    let url = c.meta.url();
    let id = generate_uuid(c.meta.title.as_str(), &c.last_update);
    let (link, guid) = match mode {
        IdentifierMode::Plain => (url, None),
        IdentifierMode::Derived => {
            let link = url.concat("?hash=").concat(id.as_str());
            let guid = String::from_str("urn:uuid:").concat(id.as_str());
            proof {
                reveal_strlit("?hash=");
                reveal_strlit("urn:uuid:");
                assert(link@ =~= link_of(*c, mode));
                assert(guid@ =~= guid_of(*c));
            }
            (link, Some(guid))
        },
    };
    FeedEntry {
        title,
        link,
        pub_date: to_rfc2822(&c.last_update),
        guid,
        guid_is_permalink: false,
        description: c.meta.description.clone(),
        content: c.content.clone(),
    }
}

/// The feed entries of the crates, one per crate and in the same order.
pub fn feed_entries(crates: &Vec<Crate>, mode: IdentifierMode) -> (r: Vec<FeedEntry>)
    requires
        forall|i: int| 0 <= i < crates@.len() ==> (#[trigger] crates@[i]).last_update.wf(),
    ensures
        r@.len() == crates@.len(),
        forall|i: int| 0 <= i < crates@.len() ==> entry_of(#[trigger] r@[i], crates@[i], mode),
{
    let mut out: Vec<FeedEntry> = Vec::new();
    let mut i: usize = 0;
    while i < crates.len()
        invariant
            i <= crates@.len(),
            out@.len() == i,
            forall|j: int| 0 <= j < crates@.len() ==> (#[trigger] crates@[j]).last_update.wf(),
            forall|j: int| 0 <= j < i ==> entry_of(#[trigger] out@[j], crates@[j], mode),
        decreases crates@.len() - i,
    {
        out.push(build_entry(&crates[i], mode));
        i = i + 1;
    }
    out
}

/// Title, link and description of a section's channel.
fn channel_header(desc: &str) -> (r: (String, String, String))
    ensures
        r.0@ == channel_title(desc@),
        r.1@ == site_root(),
        r.2@ == channel_description(),
{
    let title = String::from_str("Lib.rs - ").concat(desc);
    let link = String::from_str("https://lib.rs");
    let description = String::from_str("Recently published Rust libraries and applications");
    proof {
        reveal_strlit("Lib.rs - ");
        reveal_strlit("https://lib.rs");
        reveal_strlit("Recently published Rust libraries and applications");
    }
    (title, link, description)
}

/// The feed document of a section: fixed link and description, the given
/// entries unchanged and in order.
pub fn feed_document(desc: &str, items: Vec<FeedEntry>) -> (r: FeedDocument)
    ensures
        r.title@ == channel_title(desc@),
        r.link@ == site_root(),
        r.description@ == channel_description(),
        r.items == items,
{
    let (title, link, description) = channel_header(desc);
    FeedDocument { title, link, description, items }
}

/// The feed document of a section, with one entry per crate in the crates' order.
pub fn generate_document(desc: &str, crates: &Vec<Crate>, mode: IdentifierMode) -> (r: FeedDocument)
    requires
        forall|i: int| 0 <= i < crates@.len() ==> (#[trigger] crates@[i]).last_update.wf(),
    ensures
        r.title@ == channel_title(desc@),
        r.link@ == site_root(),
        r.description@ == channel_description(),
        r.items@.len() == crates@.len(),
        forall|i: int| 0 <= i < crates@.len() ==> entry_of(#[trigger] r.items@[i], crates@[i], mode),
{
    feed_document(desc, feed_entries(crates, mode))
}

/// The RSS items of the crates, with derived identifiers, in the crates' order.
pub fn generate_entries(crates: Vec<Crate>) -> (r: Vec<Item>)
    requires
        forall|i: int| 0 <= i < crates@.len() ==> (#[trigger] crates@[i]).last_update.wf(),
    ensures
        r@.len() == crates@.len(),
        forall|i: int|
            0 <= i < crates@.len() ==> item_of(#[trigger] r@[i], crates@[i], IdentifierMode::Derived),
{
    generate_items(&crates, IdentifierMode::Derived)
}

/// The RSS items of the crates, one per crate in the crates' order.
pub fn generate_items(crates: &Vec<Crate>, mode: IdentifierMode) -> (r: Vec<Item>)
    requires
        forall|i: int| 0 <= i < crates@.len() ==> (#[trigger] crates@[i]).last_update.wf(),
    ensures
        r@.len() == crates@.len(),
        forall|i: int| 0 <= i < crates@.len() ==> item_of(#[trigger] r@[i], crates@[i], mode),
{
    let entries = feed_entries(crates, mode);
    let mut out: Vec<Item> = Vec::new();
    let mut i: usize = 0;
    while i < entries.len()
        invariant
            i <= entries@.len() == crates@.len(),
            out@.len() == i,
            forall|j: int| 0 <= j < crates@.len() ==> entry_of(#[trigger] entries@[j], crates@[j], mode),
            forall|j: int| 0 <= j < i ==> item_of(#[trigger] out@[j], crates@[j], mode),
        decreases entries@.len() - i,
    {
        let it = rss_item(&entries[i]);
        proof {
            let e = entries@[i as int];
            assert(entry_of(e, crates@[i as int], mode));
        }
        out.push(it);
        i = i + 1;
    }
    out
}

/// The RSS channel of a section, holding the given items.
pub fn generate_channel(desc: &str, items: Vec<Item>) -> (r: Channel)
    ensures
        rss_channel_title(r) == channel_title(desc@),
        rss_channel_link(r) == site_root(),
        rss_channel_description(r) == channel_description(),
        rss_channel_items(r) == items@,
{
    let (title, link, description) = channel_header(desc);
    rss_channel(title, link, description, items)
}

/// Identifier derivation is deterministic: the same title and the same last
/// update give the same identifier, hence the same guid and the same link.
pub proof fn lemma_identifier_deterministic(c1: Crate, c2: Crate)
    requires
        c1.meta.title@ == c2.meta.title@,
        c1.meta.url@ == c2.meta.url@,
        c1.last_update == c2.last_update,
    ensures
        identifier_of(c1.meta.title@, c1.last_update) == identifier_of(
            c2.meta.title@,
            c2.last_update,
        ),
        guid_of(c1) == guid_of(c2),
        link_of(c1, IdentifierMode::Derived) == link_of(c2, IdentifierMode::Derived),
{
}

} // verus!
