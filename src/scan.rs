use vstd::prelude::*;

use crate::tool::ToolOutcome;

verus! {

/// The ending that marks a public key file.
pub open spec fn pub_suffix() -> Seq<char> {
    seq!['.', 'p', 'u', 'b']
}

/// Whether a file name's extension is exactly `pub`: the name ends in `.pub`
/// and that dot is not the name's first character.
pub open spec fn has_pub_extension(name: Seq<char>) -> bool {
    name.len() >= 5 && name.subrange(name.len() - 4, name.len() as int) == pub_suffix()
}

/// The name of a public key file without its `.pub` extension.
pub open spec fn key_stem(name: Seq<char>) -> Seq<char> {
    name.subrange(0, name.len() - 4)
}

/// The names of the public key files among a directory's names, in order.
pub open spec fn public_key_names(names: Seq<Seq<char>>) -> Seq<Seq<char>>
    decreases names.len(),
{
    if names.len() == 0 {
        seq![]
    } else if has_pub_extension(names.last()) {
        public_key_names(names.drop_last()).push(names.last())
    } else {
        public_key_names(names.drop_last())
    }
}

/// The number of other files.
pub open spec fn other_count(names: Seq<Seq<char>>) -> nat
    decreases names.len(),
{
    if names.len() == 0 {
        0
    } else if has_pub_extension(names.last()) {
        other_count(names.drop_last())
    } else {
        other_count(names.drop_last()) + 1
    }
}

/// The stem of a file name whose extension is `pub`, or `None` for any other name.
pub fn public_key_stem(name: &str) -> (r: Option<String>)
    ensures
        r is Some <==> has_pub_extension(name@),
        r is Some ==> r->0@ == key_stem(name@),
{
    let n = name.unicode_len();
    if n >= 5 && name.get_char(n - 4) == '.' && name.get_char(n - 3) == 'p' && name.get_char(n - 2)
        == 'u' && name.get_char(n - 1) == 'b' {
        assert(name@.subrange(n - 4, n as int) =~= pub_suffix());
        Some(String::from_str(name.substring_char(0, n - 4)))
    } else {
        proof {
            if has_pub_extension(name@) {
                let tail = name@.subrange(n - 4, n as int);
                assert(tail[0] == name@[n - 4] && tail[1] == name@[n - 3]);
                assert(tail[2] == name@[n - 2] && tail[3] == name@[n - 1]);
            }
        }
        None
    }
}

/// A public key file found in the store directory.
pub struct PublicKeyFile {
    /// The file's name in the directory.
    pub file_name: String,
    /// The name without `.pub`: the name of the private key file.
    pub stem: String,
}

/// The public key files among the names a directory listing gave, in the
/// listing's order; every other name is passed over.
pub fn select_public_keys(names: &Vec<String>) -> (r: Vec<PublicKeyFile>)
    ensures
        r.len() == public_key_names(names.deep_view()).len(),
        forall|i: int|
            0 <= i < r.len() ==> {
                &&& (#[trigger] r[i]).file_name@ == public_key_names(names.deep_view())[i]
                &&& r[i].stem@ == key_stem(public_key_names(names.deep_view())[i])
            },
{
    let ghost all = names.deep_view();
    let mut r: Vec<PublicKeyFile> = Vec::new();
    let mut i: usize = 0;
    while i < names.len()
        invariant
            0 <= i <= names.len(),
            all == names.deep_view(),
            r.len() == public_key_names(all.take(i as int)).len(),
            forall|j: int|
                0 <= j < r.len() ==> {
                    &&& (#[trigger] r[j]).file_name@ == public_key_names(all.take(i as int))[j]
                    &&& r[j].stem@ == key_stem(public_key_names(all.take(i as int))[j])
                },
        decreases names.len() - i,
    {
        let name = &names[i];
        assert(all.take(i + 1).drop_last() =~= all.take(i as int));
        assert(all.take(i + 1).last() == name@);
        match public_key_stem(name.as_str()) {
            Some(stem) => {
                r.push(PublicKeyFile { file_name: name.clone(), stem });
            },
            None => {},
        }
        i = i + 1;
    }
    assert(all.take(names.len() as int) =~= all);
    r
}

/// Why the store directory could not be listed.
pub enum StoreError {
    /// The user's home directory could not be found.
    NoHomeDirectory,
    /// The store directory could not be read; its path.
    DirectoryUnreadable(String),
}

impl StoreError {
    /// The text shown to the user.
    pub fn message(&self) -> (r: String)
        ensures
            match self {
                StoreError::NoHomeDirectory => r@ == "Could not find home directory"@,
                StoreError::DirectoryUnreadable(p) => r@ == "Could not read directory: "@ + p@,
            },
    {
        match self {
            StoreError::NoHomeDirectory => String::from_str("Could not find home directory"),
            StoreError::DirectoryUnreadable(p) => String::from_str(
                "Could not read directory: ",
            ).concat(p.as_str()),
        }
    }
}

/// The public key files of the store, from the outcome of listing its
/// directory: the names it holds, or the directory's path where it could not
/// be read. A directory that cannot be read is an error, never an empty store.
pub fn public_keys_in_listing(listing: Result<Vec<String>, String>) -> (r: Result<
    Vec<PublicKeyFile>,
    StoreError,
>)
    ensures
        match listing {
            Ok(names) => r is Ok && r->Ok_0.len() == public_key_names(names.deep_view()).len()
                && forall|i: int|
                0 <= i < r->Ok_0.len() ==> {
                    &&& (#[trigger] r->Ok_0[i]).file_name@ == public_key_names(names.deep_view())[i]
                    &&& r->Ok_0[i].stem@ == key_stem(public_key_names(names.deep_view())[i])
                },
            Err(path) => match r {
                Err(StoreError::DirectoryUnreadable(p)) => p@ == path@,
                _ => false,
            },
        },
{
    match listing {
        Ok(names) => Ok(select_public_keys(&names)),
        Err(path) => Err(StoreError::DirectoryUnreadable(path)),
    }
}

/// The key-info tool's report on one public key file: its metadata, or a
/// text that says why there is none.
pub enum KeyInfo {
    Metadata(String),
    Failure(String),
}

impl View for KeyInfo {
    /// Whether it is metadata, and its text.
    type V = (bool, Seq<char>);

    open spec fn view(&self) -> (bool, Seq<char>) {
        match self {
            KeyInfo::Metadata(m) => (true, m@),
            KeyInfo::Failure(f) => (false, f@),
        }
    }
}

impl KeyInfo {
    /// The text shown to the user.
    pub fn text(&self) -> (r: String)
        ensures
            r@ == self@.1,
    {
        match self {
            KeyInfo::Metadata(m) => m.clone(),
            KeyInfo::Failure(f) => f.clone(),
        }
    }
}

/// What the key-info tool gave for the public key file at `path`.
pub open spec fn info_of(path: Seq<char>, outcome: ToolOutcome) -> (bool, Seq<char>) {
    match outcome {
        ToolOutcome::Succeeded(out) => (true, out@),
        ToolOutcome::Failed(err) => (false, "Error for "@ + path + ": "@ + err@),
        ToolOutcome::Unavailable(why) => (false, "Failed to run ssh-keygen for "@ + path + ": "@
            + why@),
    }
}

/// The key-info tool's report on one public key file, built into an entry.
pub fn key_info(path: &str, outcome: &ToolOutcome) -> (r: KeyInfo)
    ensures
        r@ == info_of(path@, *outcome),
{
    match outcome {
        ToolOutcome::Succeeded(out) => KeyInfo::Metadata(out.clone()),
        ToolOutcome::Failed(err) => KeyInfo::Failure(
            String::from_str("Error for ").concat(path).concat(": ").concat(err.as_str()),
        ),
        ToolOutcome::Unavailable(why) => KeyInfo::Failure(
            String::from_str("Failed to run ssh-keygen for ").concat(path).concat(": ").concat(
                why.as_str(),
            ),
        ),
    }
}

/// A public key file of the store and what the key-info tool gave for it.
pub struct KeyInfoReport {
    /// The file's name without `.pub`.
    pub stem: String,
    /// The file's path as shown to the user.
    pub path: String,
    pub outcome: ToolOutcome,
}

/// One line of the key inventory.
pub struct KeyInventoryEntry {
    /// The name of the key pair's private key file.
    pub filename: String,
    pub info: KeyInfo,
}

impl View for KeyInventoryEntry {
    type V = (Seq<char>, (bool, Seq<char>));

    open spec fn view(&self) -> (Seq<char>, (bool, Seq<char>)) {
        (self.filename@, self.info@)
    }
}

/// The entry that a report gives.
pub open spec fn entry_of(report: KeyInfoReport) -> (Seq<char>, (bool, Seq<char>)) {
    (report.stem@, info_of(report.path@, report.outcome))
}

/// The inventory that a sequence of reports gives: one entry per report, in order.
pub open spec fn inventory_of(reports: Seq<KeyInfoReport>) -> Seq<(Seq<char>, (bool, Seq<char>))> {
    reports.map_values(|rep: KeyInfoReport| entry_of(rep))
}

/// The key inventory: one entry per public key file, in the order of the
/// reports, whether the key-info tool succeeded on it or not.
pub fn get_ssh_keys(reports: &Vec<KeyInfoReport>) -> (r: Vec<KeyInventoryEntry>)
    ensures
        r@.map_values(|e: KeyInventoryEntry| e@) == inventory_of(reports@),
{
    let mut r: Vec<KeyInventoryEntry> = Vec::new();
    let mut i: usize = 0;
    while i < reports.len()
        invariant
            0 <= i <= reports.len(),
            r.len() == i,
            forall|j: int| 0 <= j < i ==> (#[trigger] r[j])@ == entry_of(reports[j]),
        decreases reports.len() - i,
    {
        let rep = &reports[i];
        let info = key_info(rep.path.as_str(), &rep.outcome);
        r.push(KeyInventoryEntry { filename: rep.stem.clone(), info });
        i = i + 1;
    }
    assert(r@.map_values(|e: KeyInventoryEntry| e@) =~= inventory_of(reports@));
    r
}

/// A key-info tool that fails on one public key file costs that file its
/// metadata and nothing else: the inventory keeps one entry per file, the
/// failing file's entry records the failure, and every other entry is as it was.
pub proof fn lemma_failure_leaves_other_entries(
    reports: Seq<KeyInfoReport>,
    i: int,
    failed: KeyInfoReport,
)
    requires
        0 <= i < reports.len(),
        !(failed.outcome is Succeeded),
    ensures
        inventory_of(reports.update(i, failed)).len() == reports.len(),
        inventory_of(reports.update(i, failed))[i] == entry_of(failed),
        !inventory_of(reports.update(i, failed))[i].1.0,
        forall|j: int|
            0 <= j < reports.len() && j != i ==> #[trigger] inventory_of(reports.update(i, failed))[j]
                == inventory_of(reports)[j],
{
}

/// Every file whose extension is `pub` is listed and no other: the public
/// key files and the others together make up the directory, so a directory
/// with `n` public key files lists `n` of them however many other files it holds.
pub proof fn lemma_listing_counts_public_files(names: Seq<Seq<char>>)
    ensures
        public_key_names(names).len() + other_count(names) == names.len(),
    decreases names.len(),
{
    if names.len() > 0 {
        lemma_listing_counts_public_files(names.drop_last());
    }
}

/// Files without the `pub` extension added to a directory change nothing in
/// what is listed.
pub proof fn lemma_other_files_not_listed(names: Seq<Seq<char>>, others: Seq<Seq<char>>)
    requires
        forall|i: int| 0 <= i < others.len() ==> !has_pub_extension(#[trigger] others[i]),
    ensures
        public_key_names(names + others) == public_key_names(names),
    decreases others.len(),
{
    if others.len() > 0 {
        let rest = others.drop_last();
        assert forall|i: int| 0 <= i < rest.len() implies !has_pub_extension(#[trigger] rest[i]) by {
            assert(rest[i] == others[i]);
        }
        lemma_other_files_not_listed(names, rest);
        assert((names + others).drop_last() =~= names + rest);
        assert((names + others).last() == others[others.len() - 1]);
    } else {
        assert(names + others =~= names);
    }
}

} // verus!
