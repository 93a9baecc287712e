//! Discovery of the vault files in a directory.
//!
//! The application reads the directory and reports what it found as plain
//! values; which entries are vaults, how each is described, and in what
//! order they are listed is decided here.

use vstd::prelude::*;
use vstd::string::StrSliceExecFns;

verus! {

/// One vault file, as it is shown to the user.
#[derive(Debug, Clone, PartialEq, Eq)]
pub struct VaultInfo {
    /// The full path of the file.
    pub path: String,
    /// The last component of the path.
    pub file_name: String,
    /// The size of the file in bytes, 0 if it is not known.
    pub size: u64,
    /// When the file was last modified, in seconds since the Unix epoch, if
    /// that is known.
    pub modified: Option<u64>,
    /// The name under which the vault is shown: the file name without `.json`.
    pub label: String,
}

/// Mathematical model of a [`VaultInfo`].
pub struct VaultInfoView {
    pub path: Seq<char>,
    pub file_name: Seq<char>,
    pub size: u64,
    pub modified: Option<u64>,
    pub label: Seq<char>,
}

impl View for VaultInfo {
    type V = VaultInfoView;

    open spec fn view(&self) -> VaultInfoView {
        VaultInfoView {
            path: self.path@,
            file_name: self.file_name@,
            size: self.size,
            modified: self.modified,
            label: self.label@,
        }
    }
}

/// What the file system knows of a file.
#[derive(Debug, Clone, Copy, PartialEq, Eq, Structural)]
pub struct FileMeta {
    /// The size of the file in bytes.
    pub len: u64,
    /// When the file was last modified, in seconds since the Unix epoch, if
    /// the file system tells and the time is not before the epoch.
    pub modified: Option<u64>,
}

/// One entry of a directory, as the file system reports it.
#[derive(Debug, Clone, PartialEq, Eq)]
pub struct FoundEntry {
    /// The full path of the entry, with U+FFFD where it is not Unicode.
    pub path: String,
    /// The last component of the path, if it has one and it is Unicode.
    pub file_name: Option<String>,
    /// The extension of the file name, if it has one and it is Unicode.
    pub extension: Option<String>,
    /// The metadata of the file that the path leads to, if it could be read.
    pub metadata: Option<FileMeta>,
}

/// Mathematical model of a [`FoundEntry`].
pub struct FoundEntryView {
    pub path: Seq<char>,
    pub file_name: Option<Seq<char>>,
    pub extension: Option<Seq<char>>,
    pub metadata: Option<FileMeta>,
}

/// The text of an optional string.
pub open spec fn text_of(s: Option<String>) -> Option<Seq<char>> {
    match s {
        Some(s) => Some(s@),
        None => None,
    }
}

impl View for FoundEntry {
    type V = FoundEntryView;

    open spec fn view(&self) -> FoundEntryView {
        FoundEntryView {
            path: self.path@,
            file_name: text_of(self.file_name),
            extension: text_of(self.extension),
            metadata: self.metadata,
        }
    }
}

/// The suffix that a vault's label leaves out.
pub open spec fn label_suffix() -> Seq<char> {
    seq!['.', 'j', 's', 'o', 'n']
}

/// The name under which the vault in the file `file_name` is shown: the
/// file name without its `.json` ending, or the whole file name if it does
/// not end so.
pub open spec fn label_of(file_name: Seq<char>) -> Seq<char> {
    if label_suffix().is_suffix_of(file_name) {
        file_name.subrange(0, file_name.len() - 5)
    } else {
        file_name
    }
}

/// An entry is a vault when its extension is exactly `json`.
pub open spec fn is_vault(entry: FoundEntryView) -> bool {
    entry.extension == Some(seq!['j', 's', 'o', 'n'])
}

/// How a vault entry is described. An entry whose name is not Unicode has
/// an empty file name; one whose metadata could not be read has size 0 and
/// no modification time.
pub open spec fn record_of(entry: FoundEntryView) -> VaultInfoView {
    let file_name = match entry.file_name {
        Some(name) => name,
        None => Seq::empty(),
    };
    VaultInfoView {
        path: entry.path,
        file_name,
        size: match entry.metadata {
            Some(meta) => meta.len,
            None => 0,
        },
        modified: match entry.metadata {
            Some(meta) => meta.modified,
            None => None,
        },
        label: label_of(file_name),
    }
}

/// Tells whether `text` ends with `.json`.
fn ends_with_json(text: &str) -> (yes: bool)
    ensures
        yes == label_suffix().is_suffix_of(text@),
{
    let n = text.unicode_len();
    if n < 5 {
        return false;
    }
    let yes = text.get_char(n - 5) == '.' && text.get_char(n - 4) == 'j' && text.get_char(n - 3)
        == 's' && text.get_char(n - 2) == 'o' && text.get_char(n - 1) == 'n';
    proof {
        let tail = text@.subrange(n - 5, n as int);
        if yes {
            assert(tail =~= label_suffix());
        } else {
            assert(tail[0] == text@[n - 5]);
            assert(tail[1] == text@[n - 4]);
            assert(tail[2] == text@[n - 3]);
            assert(tail[3] == text@[n - 2]);
            assert(tail[4] == text@[n - 1]);
        }
    }
    yes
}

/// The name under which the vault in the file `file_name` is shown.
pub fn vault_label(file_name: &str) -> (label: String)
    ensures
        label@ == label_of(file_name@),
{
    if ends_with_json(file_name) {
        let n = file_name.unicode_len();
        file_name.substring_char(0, n - 5).to_string()
    } else {
        file_name.to_string()
    }
}

/// Tells whether an entry is a vault: whether its extension is exactly `json`.
pub fn is_vault_entry(entry: &FoundEntry) -> (yes: bool)
    ensures
        yes == is_vault(entry@),
{
    match &entry.extension {
        Some(extension) => {
            let text = extension.as_str();
            let yes = text.unicode_len() == 4 && text.get_char(0) == 'j' && text.get_char(1) == 's'
                && text.get_char(2) == 'o' && text.get_char(3) == 'n';
            proof {
                if yes {
                    assert(text@ =~= seq!['j', 's', 'o', 'n']);
                }
            }
            yes
        },
        None => false,
    }
}

/// Describes a vault entry.
pub fn describe(entry: &FoundEntry) -> (info: VaultInfo)
    ensures
        info@ == record_of(entry@),
{
    let file_name = match &entry.file_name {
        Some(name) => name.clone(),
        None => String::new(),
    };
    let label = vault_label(file_name.as_str());
    let (size, modified) = match entry.metadata {
        Some(meta) => (meta.len, meta.modified),
        None => (0, None),
    };
    VaultInfo { path: entry.path.clone(), file_name, size, modified, label }
}

/// The lower-case form of `text`, as Unicode defines it.
pub uninterp spec fn lowercase_of(text: Seq<char>) -> Seq<char>;

/// Calls `str::to_lowercase`.
///
/// Trusted: the lower-case form depends on the text alone.
#[verifier::external_body]
fn lowercase(text: &str) -> (lower: String)
    ensures
        lower@ == lowercase_of(text@),
{
    text.to_lowercase()
}

/// The order of texts in which names are listed: character by character, by
/// code point, a text coming before those that it begins.
pub open spec fn text_le(a: Seq<char>, b: Seq<char>) -> bool
    decreases a.len(),
{
    if a.len() == 0 {
        true
    } else if b.len() == 0 {
        false
    } else if a[0] == b[0] {
        text_le(a.drop_first(), b.drop_first())
    } else {
        (a[0] as u32) < (b[0] as u32)
    }
}

/// Tells whether `a` comes before `b` in the order of texts, or equals it.
pub fn precedes_or_equals(a: &str, b: &str) -> (yes: bool)
    ensures
        yes == text_le(a@, b@),
{
    let a_len = a.unicode_len();
    let b_len = b.unicode_len();
    let mut i: usize = 0;
    assert(a@.skip(0) =~= a@ && b@.skip(0) =~= b@);
    loop
        invariant
            i <= a_len,
            i <= b_len,
            a_len == a@.len(),
            b_len == b@.len(),
            text_le(a@, b@) == text_le(a@.skip(i as int), b@.skip(i as int)),
        decreases a_len - i,
    {
        if i == a_len {
            return true;
        }
        if i == b_len {
            return false;
        }
        let in_a = a.get_char(i);
        let in_b = b.get_char(i);
        if in_a != in_b {
            return (in_a as u32) < (in_b as u32);
        }
        proof {
            assert(a@.skip(i as int).drop_first() =~= a@.skip(i + 1));
            assert(b@.skip(i as int).drop_first() =~= b@.skip(i + 1));
        }
        i += 1;
    }
}

/// The text by which a vault is ordered: its file name in lower case.
pub open spec fn sort_key(info: VaultInfoView) -> Seq<char> {
    lowercase_of(info.file_name)
}

/// `a` may stand before `b` in a listing.
pub open spec fn in_order(a: VaultInfoView, b: VaultInfoView) -> bool {
    text_le(sort_key(a), sort_key(b))
}

/// A listing with one more vault: `info` stands behind every vault that may
/// stand before it, and before the others.
pub open spec fn with_vault(listing: Seq<VaultInfoView>, info: VaultInfoView) -> Seq<VaultInfoView>
    decreases listing.len(),
{
    if listing.len() == 0 {
        seq![info]
    } else if in_order(listing.last(), info) {
        listing.push(info)
    } else {
        with_vault(listing.drop_last(), info).push(listing.last())
    }
}

/// The listing of a directory: its vault entries, each described and put
/// in its place in the order in which the entries were found.
pub open spec fn listing_of(entries: Seq<FoundEntryView>) -> Seq<VaultInfoView>
    decreases entries.len(),
{
    if entries.len() == 0 {
        Seq::empty()
    } else if is_vault(entries.last()) {
        with_vault(listing_of(entries.drop_last()), record_of(entries.last()))
    } else {
        listing_of(entries.drop_last())
    }
}

/// The models of a list of vaults.
pub open spec fn infos_of(vaults: Seq<VaultInfo>) -> Seq<VaultInfoView> {
    vaults.map_values(|info: VaultInfo| info@)
}

/// The models of a list of entries.
pub open spec fn entries_of(entries: Seq<FoundEntry>) -> Seq<FoundEntryView> {
    entries.map_values(|entry: FoundEntry| entry@)
}

/// Puts `info` into `listing` behind every vault that may stand before it.
fn insert_in_order(listing: &mut Vec<VaultInfo>, info: VaultInfo)
    ensures
        infos_of(final(listing)@) == with_vault(infos_of(old(listing)@), info@),
{
    let key = lowercase(info.file_name.as_str());
    let ghost before = infos_of(listing@);
    let mut place = listing.len();
    let mut found = false;
    assert(before.take(place as int) =~= before);
    assert(with_vault(before, info@) + before.skip(place as int) =~= with_vault(before, info@));
    while place > 0 && !found
        invariant
            place <= listing.len(),
            listing@ == old(listing)@,
            before == infos_of(listing@),
            key@ == sort_key(info@),
            with_vault(before, info@) == with_vault(before.take(place as int), info@)
                + before.skip(place as int),
            found ==> place > 0 && in_order(before[place - 1], info@),
        decreases place + (if found { 0int } else { 1int }),
    {
        let other = lowercase(listing[place - 1].file_name.as_str());
        if precedes_or_equals(other.as_str(), key.as_str()) {
            found = true;
        } else {
            proof {
                let head = before.take(place as int);
                assert(head.last() == before[place - 1]);
                assert(head.drop_last() =~= before.take(place - 1));
                assert(with_vault(head, info@) == with_vault(before.take(place - 1), info@).push(
                    before[place - 1],
                ));
                assert(with_vault(before.take(place - 1), info@).push(before[place - 1])
                    + before.skip(place as int) =~= with_vault(before.take(place - 1), info@)
                    + before.skip(place - 1));
            }
            place -= 1;
        }
    }
    proof {
        let head = before.take(place as int);
        if place > 0 {
            assert(head.last() == before[place - 1]);
        }
        assert(with_vault(head, info@) =~= head.push(info@));
        assert(head.push(info@) + before.skip(place as int) =~= before.insert(
            place as int,
            info@,
        ));
        assert(infos_of(listing@.insert(place as int, info)) =~= before.insert(
            place as int,
            info@,
        ));
    }
    listing.insert(place, info);
}

/// Lists the vaults among the entries of a directory.
///
/// An entry is listed when its extension is exactly `json`. The listing is
/// ordered by file name without regard to case; vaults whose names differ
/// in case only stay in the order in which they were found.
pub fn scan_vault_dir(entries: &Vec<FoundEntry>) -> (vaults: Vec<VaultInfo>)
    ensures
        infos_of(vaults@) == listing_of(entries_of(entries@)),
        is_ordered(infos_of(vaults@)),
        infos_of(vaults@).to_multiset() == vaults_found(entries_of(entries@)).to_multiset(),
        forall|key: Seq<char>| #[trigger]
            named_alike(infos_of(vaults@), key) == named_alike(
                vaults_found(entries_of(entries@)),
                key,
            ),
{
    let mut vaults: Vec<VaultInfo> = Vec::new();
    let mut i: usize = 0;
    assert(entries_of(entries@).take(0) =~= Seq::empty());
    assert(infos_of(vaults@) =~= Seq::empty());
    while i < entries.len()
        invariant
            i <= entries.len(),
            infos_of(vaults@) == listing_of(entries_of(entries@).take(i as int)),
        decreases entries.len() - i,
    {
        proof {
            let seen = entries_of(entries@).take(i + 1);
            assert(seen.drop_last() =~= entries_of(entries@).take(i as int));
            assert(seen.last() == entries@[i as int]@);
        }
        if is_vault_entry(&entries[i]) {
            let info = describe(&entries[i]);
            insert_in_order(&mut vaults, info);
        }
        i += 1;
    }
    proof {
        let found = entries_of(entries@);
        assert(found.take(i as int) =~= found);
        listing_is_ordered(found);
        listing_holds_the_vaults_found(found);
        assert forall|key: Seq<char>| #[trigger]
            named_alike(listing_of(found), key) == named_alike(vaults_found(found), key) by {
            listing_keeps_the_order_found(found, key);
        }
    }
    vaults
}

/// Where the vaults are looked for.
#[derive(Debug, Clone, PartialEq, Eq)]
pub enum VaultDir {
    /// In the application's own directory under the user's configuration
    /// directory.
    Default,
    /// In this path under the user's home directory.
    UnderHome(String),
    /// In this path.
    At(String),
}

/// Mathematical model of a [`VaultDir`].
pub enum VaultDirView {
    Default,
    UnderHome(Seq<char>),
    At(Seq<char>),
}

impl View for VaultDir {
    type V = VaultDirView;

    open spec fn view(&self) -> VaultDirView {
        match self {
            VaultDir::Default => VaultDirView::Default,
            VaultDir::UnderHome(rest) => VaultDirView::UnderHome(rest@),
            VaultDir::At(path) => VaultDirView::At(path@),
        }
    }
}

/// The directory that a hint stands for: without a hint the default one; a
/// hint that begins with `~/` names what follows, under the home directory;
/// any other hint is the path itself.
pub open spec fn vault_dir_of(hint: Option<Seq<char>>) -> VaultDirView {
    match hint {
        None => VaultDirView::Default,
        Some(path) => if seq!['~', '/'].is_prefix_of(path) {
            VaultDirView::UnderHome(path.skip(2))
        } else {
            VaultDirView::At(path)
        },
    }
}

/// Decides where the vaults are looked for.
pub fn resolve_dir_hint(dir_hint: Option<String>) -> (dir: VaultDir)
    ensures
        dir@ == vault_dir_of(text_of(dir_hint)),
{
    match dir_hint {
        None => VaultDir::Default,
        Some(path) => {
            let text = path.as_str();
            let n = text.unicode_len();
            if n >= 2 && text.get_char(0) == '~' && text.get_char(1) == '/' {
                proof {
                    assert(text@.subrange(0, 2) =~= seq!['~', '/']);
                    assert(text@.subrange(2, n as int) =~= text@.skip(2));
                }
                VaultDir::UnderHome(text.substring_char(2, n).to_string())
            } else {
                proof {
                    if n >= 2 {
                        let head = text@.subrange(0, 2);
                        assert(head[0] == text@[0] && head[1] == text@[1]);
                    }
                }
                VaultDir::At(path)
            }
        },
    }
}

/// What the caller reports back to a listing in progress.
#[derive(Debug, Clone, PartialEq, Eq)]
pub enum ListEvent {
    /// The listing was asked for, with this hint at the directory.
    Begin(Option<String>),
    /// The directory was read; these are its entries, in the order found.
    Entries(Vec<FoundEntry>),
    /// The directory could not be read.
    Unreadable,
}

/// Mathematical model of a [`ListEvent`].
pub enum ListEventView {
    Begin(Option<Seq<char>>),
    Entries(Seq<FoundEntryView>),
    Unreadable,
}

impl View for ListEvent {
    type V = ListEventView;

    open spec fn view(&self) -> ListEventView {
        match self {
            ListEvent::Begin(hint) => ListEventView::Begin(text_of(*hint)),
            ListEvent::Entries(entries) => ListEventView::Entries(entries_of(entries@)),
            ListEvent::Unreadable => ListEventView::Unreadable,
        }
    }
}

/// What a listing asks of the caller next.
#[derive(Debug, Clone, PartialEq, Eq)]
pub enum ListAction {
    /// Read this directory and report `Entries` or `Unreadable`.
    ReadDir(VaultDir),
    /// The listing is over; these are the vaults.
    Finish(Vec<VaultInfo>),
}

/// Mathematical model of a [`ListAction`].
pub enum ListActionView {
    ReadDir(VaultDirView),
    Finish(Seq<VaultInfoView>),
}

impl View for ListAction {
    type V = ListActionView;

    open spec fn view(&self) -> ListActionView {
        match self {
            ListAction::ReadDir(dir) => ListActionView::ReadDir(dir@),
            ListAction::Finish(vaults) => ListActionView::Finish(infos_of(vaults@)),
        }
    }
}

/// A listing's transition function: the request that answers `event`.
pub open spec fn list_step(event: ListEventView) -> ListActionView {
    match event {
        ListEventView::Begin(hint) => ListActionView::ReadDir(vault_dir_of(hint)),
        ListEventView::Entries(entries) => ListActionView::Finish(listing_of(entries)),
        ListEventView::Unreadable => ListActionView::Finish(Seq::empty()),
    }
}

/// Advances a listing of the local vaults by one event.
///
/// At first the directory to read is chosen from the hint. Once the
/// directory has been read its vaults are listed in order; a directory that
/// cannot be read has no vaults.
pub fn list_local_vaults(event: ListEvent) -> (action: ListAction)
    ensures
        action@ == list_step(event@),
{
    match event {
        ListEvent::Begin(dir_hint) => ListAction::ReadDir(resolve_dir_hint(dir_hint)),
        ListEvent::Entries(entries) => ListAction::Finish(scan_vault_dir(&entries)),
        ListEvent::Unreadable => {
            let vaults: Vec<VaultInfo> = Vec::new();
            assert(infos_of(vaults@) =~= Seq::empty());
            ListAction::Finish(vaults)
        },
    }
}

/// Every text precedes or equals itself.
pub proof fn text_order_is_reflexive(a: Seq<char>)
    ensures
        text_le(a, a),
    decreases a.len(),
{
    if a.len() > 0 {
        text_order_is_reflexive(a.drop_first());
    }
}

/// Of two texts one precedes or equals the other.
pub proof fn text_order_is_total(a: Seq<char>, b: Seq<char>)
    ensures
        text_le(a, b) || text_le(b, a),
    decreases a.len(),
{
    if a.len() > 0 && b.len() > 0 {
        if a[0] == b[0] {
            text_order_is_total(a.drop_first(), b.drop_first());
        } else {
            vstd::utf8::char_u32_cast(a[0], a[0] as u32);
            vstd::utf8::char_u32_cast(b[0], b[0] as u32);
        }
    }
}

/// Two texts of which each precedes or equals the other are the same text.
pub proof fn text_order_is_antisymmetric(a: Seq<char>, b: Seq<char>)
    requires
        text_le(a, b),
        text_le(b, a),
    ensures
        a == b,
    decreases a.len(),
{
    if a.len() > 0 && b.len() > 0 {
        text_order_is_antisymmetric(a.drop_first(), b.drop_first());
        assert(a =~= seq![a[0]] + a.drop_first());
        assert(b =~= seq![b[0]] + b.drop_first());
    } else {
        assert(a =~= b);
    }
}

/// A text that precedes or equals a second, which precedes or equals a
/// third, precedes or equals the third.
pub proof fn text_order_is_transitive(a: Seq<char>, b: Seq<char>, c: Seq<char>)
    requires
        text_le(a, b),
        text_le(b, c),
    ensures
        text_le(a, c),
    decreases a.len(),
{
    if a.len() > 0 && b.len() > 0 && c.len() > 0 && a[0] == b[0] && b[0] == c[0] {
        text_order_is_transitive(a.drop_first(), b.drop_first(), c.drop_first());
    }
}

/// A listing in which every vault may stand before all that follow it.
pub open spec fn is_ordered(listing: Seq<VaultInfoView>) -> bool {
    forall|i: int, j: int| 0 <= i < j < listing.len() ==> in_order(listing[i], listing[j])
}

/// The vault that an entry describes, if it is one.
pub open spec fn vault_of(entry: FoundEntryView) -> Option<VaultInfoView> {
    if is_vault(entry) {
        Some(record_of(entry))
    } else {
        None
    }
}

/// The vaults among `entries`, described, in the order found.
pub open spec fn vaults_found(entries: Seq<FoundEntryView>) -> Seq<VaultInfoView> {
    entries.filter_map(|entry: FoundEntryView| vault_of(entry))
}

/// The vaults of `listing` whose file names in lower case are `key`.
pub open spec fn named_alike(listing: Seq<VaultInfoView>, key: Seq<char>) -> Seq<VaultInfoView> {
    listing.filter(|info: VaultInfoView| sort_key(info) == key)
}

proof fn lemma_named_alike_push(listing: Seq<VaultInfoView>, info: VaultInfoView, key: Seq<char>)
    ensures
        named_alike(listing.push(info), key) == if sort_key(info) == key {
            named_alike(listing, key).push(info)
        } else {
            named_alike(listing, key)
        },
{
    reveal(Seq::filter);
    assert(listing.push(info).drop_last() =~= listing);
}

proof fn lemma_with_vault(listing: Seq<VaultInfoView>, info: VaultInfoView, key: Seq<char>)
    ensures
        with_vault(listing, info).len() == listing.len() + 1,
        forall|i: int|
            0 <= i < with_vault(listing, info).len() ==> #[trigger] with_vault(listing, info)[i]
                == info || listing.contains(with_vault(listing, info)[i]),
        with_vault(listing, info).to_multiset() == listing.to_multiset().insert(info),
        is_ordered(listing) ==> is_ordered(with_vault(listing, info)),
        named_alike(with_vault(listing, info), key) == if sort_key(info) == key {
            named_alike(listing, key).push(info)
        } else {
            named_alike(listing, key)
        },
    decreases listing.len(),
{
    broadcast use vstd::seq_lib::to_multiset_build;

    let alike = |other: VaultInfoView| sort_key(other) == key;
    let more = with_vault(listing, info);
    if listing.len() == 0 {
        assert(more =~= listing.push(info));
        lemma_named_alike_push(listing, info, key);
    } else if in_order(listing.last(), info) {
        lemma_named_alike_push(listing, info, key);
        assert forall|i: int, j: int| 0 <= i < j < more.len() && is_ordered(listing) implies in_order(
            more[i],
            more[j],
        ) by {
            if j == listing.len() && i < listing.len() - 1 {
                assert(in_order(listing[i], listing[listing.len() - 1]));
                text_order_is_transitive(
                    sort_key(listing[i]),
                    sort_key(listing.last()),
                    sort_key(info),
                );
            }
        }
    } else {
        let last = listing.last();
        let rest = listing.drop_last();
        let inner = with_vault(rest, info);
        lemma_with_vault(rest, info, key);
        assert(listing =~= rest.push(last));
        lemma_named_alike_push(inner, last, key);
        lemma_named_alike_push(rest, last, key);
        text_order_is_total(sort_key(last), sort_key(info));
        text_order_is_reflexive(sort_key(info));
        assert forall|i: int| 0 <= i < more.len() implies #[trigger] more[i] == info
            || listing.contains(more[i]) by {
            if i < inner.len() {
                if inner[i] != info {
                    let k = choose|k: int| 0 <= k < rest.len() && rest[k] == inner[i];
                    assert(listing[k] == more[i]);
                }
            } else {
                assert(listing[listing.len() - 1] == more[i]);
            }
        }
        assert forall|i: int, j: int| 0 <= i < j < more.len() && is_ordered(listing) implies in_order(
            more[i],
            more[j],
        ) by {
            assert(is_ordered(rest)) by {
                assert forall|a: int, b: int| 0 <= a < b < rest.len() implies in_order(
                    rest[a],
                    rest[b],
                ) by {
                    assert(in_order(listing[a], listing[b]));
                }
            }
            if j == inner.len() {
                if inner[i] != info {
                    let k = choose|k: int| 0 <= k < rest.len() && rest[k] == inner[i];
                    assert(in_order(listing[k], listing[listing.len() - 1]));
                }
            }
        }
        assert(more.to_multiset() =~= listing.to_multiset().insert(info));
    }
}

/// The listing of a directory is in order: of any two vaults, the earlier
/// one's file name in lower case precedes or equals the later one's.
pub proof fn listing_is_ordered(entries: Seq<FoundEntryView>)
    ensures
        is_ordered(listing_of(entries)),
    decreases entries.len(),
{
    if entries.len() > 0 {
        listing_is_ordered(entries.drop_last());
        lemma_with_vault(listing_of(entries.drop_last()), record_of(entries.last()), Seq::empty());
    }
}

/// The listing of a directory holds the vaults that were found in it, each
/// as often as it was found, and nothing else.
pub proof fn listing_holds_the_vaults_found(entries: Seq<FoundEntryView>)
    ensures
        listing_of(entries).to_multiset() == vaults_found(entries).to_multiset(),
    decreases entries.len(),
{
    broadcast use vstd::seq_lib::to_multiset_build;

    if entries.len() > 0 {
        let rest = entries.drop_last();
        listing_holds_the_vaults_found(rest);
        lemma_with_vault(listing_of(rest), record_of(entries.last()), Seq::empty());
        if is_vault(entries.last()) {
            assert(vaults_found(entries) =~= vaults_found(rest).push(record_of(entries.last())));
        }
    }
}

/// Vaults whose file names are the same in lower case are listed in the
/// order in which they were found.
pub proof fn listing_keeps_the_order_found(entries: Seq<FoundEntryView>, key: Seq<char>)
    ensures
        named_alike(listing_of(entries), key) == named_alike(vaults_found(entries), key),
    decreases entries.len(),
{
    if entries.len() > 0 {
        let rest = entries.drop_last();
        listing_keeps_the_order_found(rest, key);
        lemma_with_vault(listing_of(rest), record_of(entries.last()), key);
        if is_vault(entries.last()) {
            let found = vaults_found(rest).push(record_of(entries.last()));
            assert(vaults_found(entries) =~= found);
            lemma_named_alike_push(vaults_found(rest), record_of(entries.last()), key);
        }
    }
}

} // verus!
