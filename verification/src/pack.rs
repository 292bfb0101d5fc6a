//! Sound packs: the table from key identifiers to sounds that a pack folder
//! declares, and the rules by which one is assembled from its parts.

use crate::key::{fallback_name, key_from_wide_code, wide_key};
use crate::text::{parse_number, parsed_number, same_text};
use vstd::prelude::*;

verus! {

/// The loudest volume, in percent.
pub const FULL_VOLUME: u32 = 100;

/// What a pack is, apart from how it is stored.
pub struct PackView<S> {
    /// The name of the folder that the pack was loaded from.
    pub name: Seq<char>,
    /// The volume, in percent, that the pack asks for when it is activated.
    pub default_volume: u32,
    /// The sound of each key identifier that the pack binds.
    pub sounds: Map<Seq<char>, S>,
}

impl<S> PackView<S> {
    /// The sound that a key press triggers: the key's own sound, else the
    /// sound of the fallback entry, else none.
    pub open spec fn resolve(self, key: Seq<char>) -> Option<S> {
        if self.sounds.contains_key(key) {
            Some(self.sounds[key])
        } else if self.sounds.contains_key(fallback_name()) {
            Some(self.sounds[fallback_name()])
        } else {
            None
        }
    }
}

/// The table that a list of bindings denotes. Where an identifier is bound
/// more than once, the last binding counts.
pub open spec fn bound_sounds<S>(entries: Seq<(String, S)>) -> Map<Seq<char>, S>
    decreases entries.len(),
{
    if entries.len() == 0 {
        Map::empty()
    } else {
        bound_sounds(entries.drop_last()).insert(entries.last().0@, entries.last().1)
    }
}

/// The table that a list of file bindings denotes: each identifier with the
/// path of its sound file. Where an identifier is bound more than once, the
/// last binding counts.
pub open spec fn bound_paths(entries: Seq<(String, String)>) -> Map<Seq<char>, Seq<char>>
    decreases entries.len(),
{
    if entries.len() == 0 {
        Map::empty()
    } else {
        bound_paths(entries.drop_last()).insert(entries.last().0@, entries.last().1@)
    }
}

/// Whether no two bindings of a list are for the same identifier.
pub open spec fn distinct_identifiers(entries: Seq<(String, String)>) -> bool {
    forall|i: int, j: int|
        0 <= i < j < entries.len() ==> (#[trigger] entries[i]).0@ != (#[trigger] entries[j]).0@
}

/// In a list without a repeated identifier every binding counts: the table
/// holds each binding of the list, and nothing else.
pub proof fn lemma_distinct_bindings_all_count(entries: Seq<(String, String)>)
    requires
        distinct_identifiers(entries),
    ensures
        forall|i: int|
            0 <= i < entries.len() ==> bound_paths(entries).contains_key(
                (#[trigger] entries[i]).0@,
            ) && bound_paths(entries)[entries[i].0@] == entries[i].1@,
        forall|key: Seq<char>| #[trigger]
            bound_paths(entries).contains_key(key) ==> exists|i: int|
                0 <= i < entries.len() && (#[trigger] entries[i]).0@ == key,
    decreases entries.len(),
{
    if entries.len() > 0 {
        let front = entries.drop_last();
        let last = entries.len() - 1;
        assert forall|i: int| 0 <= i < front.len() implies front[i] == entries[i] by {}
        lemma_distinct_bindings_all_count(front);
        assert forall|i: int| 0 <= i < entries.len() implies bound_paths(entries).contains_key(
            (#[trigger] entries[i]).0@,
        ) && bound_paths(entries)[entries[i].0@] == entries[i].1@ by {
            if i < last {
                assert(front[i] == entries[i]);
                assert(entries[i].0@ != entries[last].0@);
            }
        }
        assert forall|key: Seq<char>| #[trigger]
            bound_paths(entries).contains_key(key) implies exists|i: int|
            0 <= i < entries.len() && (#[trigger] entries[i]).0@ == key by {
            if key == entries[last].0@ {
                assert(entries[last].0@ == key);
            } else {
                assert(bound_paths(front).contains_key(key));
                let i = choose|i: int| 0 <= i < front.len() && (#[trigger] front[i]).0@ == key;
                assert(entries[i].0@ == key);
            }
        }
    }
}

/// Binding an identifier that a list without repeats already binds, in the
/// place where it stands, is binding it in the table.
proof fn lemma_rebind_in_place(entries: Seq<(String, String)>, at: int, binding: (String, String))
    requires
        distinct_identifiers(entries),
        0 <= at < entries.len(),
        entries[at].0@ == binding.0@,
    ensures
        distinct_identifiers(entries.update(at, binding)),
        bound_paths(entries.update(at, binding)) == bound_paths(entries).insert(
            binding.0@,
            binding.1@,
        ),
    decreases entries.len(),
{
    let changed = entries.update(at, binding);
    let last = entries.len() - 1;
    let front = entries.drop_last();
    assert forall|i: int, j: int| 0 <= i < j < changed.len() implies (#[trigger] changed[i]).0@
        != (#[trigger] changed[j]).0@ by {
        assert(changed[i].0@ == entries[i].0@);
        assert(changed[j].0@ == entries[j].0@);
    }
    if at == last {
        assert(changed.drop_last() =~= front);
        assert(bound_paths(changed) =~= bound_paths(entries).insert(binding.0@, binding.1@));
    } else {
        assert forall|i: int, j: int| 0 <= i < j < front.len() implies (#[trigger] front[i]).0@
            != (#[trigger] front[j]).0@ by {
            assert(front[i] == entries[i]);
            assert(front[j] == entries[j]);
        }
        assert(front[at] == entries[at]);
        lemma_rebind_in_place(front, at, binding);
        assert(changed.drop_last() =~= front.update(at, binding));
        assert(changed.last() == entries.last());
        assert(entries[at].0@ != entries[last].0@);
        assert(bound_paths(changed) =~= bound_paths(entries).insert(binding.0@, binding.1@));
    }
}

/// Binds `key` to `path` in a list without repeats: in the place of the
/// binding that the list has for `key`, or at the end where it has none.
fn bind(entries: &mut Vec<(String, String)>, key: String, path: String)
    requires
        distinct_identifiers(old(entries)@),
    ensures
        distinct_identifiers(final(entries)@),
        bound_paths(final(entries)@) == bound_paths(old(entries)@).insert(key@, path@),
{
    let mut i: usize = 0;
    while i < entries.len()
        invariant
            entries@ == old(entries)@,
            distinct_identifiers(entries@),
            0 <= i <= entries@.len(),
            forall|j: int| 0 <= j < i ==> (#[trigger] entries@[j]).0@ != key@,
        decreases entries.len() - i,
    {
        if same_text(entries[i].0.as_str(), key.as_str()) {
            proof {
                lemma_rebind_in_place(entries@, i as int, (key, path));
            }
            entries.set(i, (key, path));
            return;
        }
        i = i + 1;
    }
    let ghost before = entries@;
    entries.push((key, path));
    assert(entries@.drop_last() =~= before);
    assert forall|a: int, b: int| 0 <= a < b < entries@.len() implies (#[trigger] entries@[a]).0@
        != (#[trigger] entries@[b]).0@ by {
        assert(entries@[a] == before[a]);
        if b < before.len() {
            assert(entries@[b] == before[b]);
        }
    }
}

/// The file bindings of a pack configuration: a table from key identifier to
/// the path of the key's sound file, relative to the pack folder. No
/// identifier is bound twice.
#[derive(Debug)]
pub struct Bindings {
    entries: Vec<(String, String)>,
}

impl View for Bindings {
    type V = Map<Seq<char>, Seq<char>>;

    closed spec fn view(&self) -> Map<Seq<char>, Seq<char>> {
        bound_paths(self.entries@)
    }
}

impl Bindings {
    #[verifier::type_invariant]
    spec fn binds_each_once(&self) -> bool {
        distinct_identifiers(self.entries@)
    }

    /// The empty table.
    pub fn new() -> (bindings: Self)
        ensures
            bindings@ == Map::<Seq<char>, Seq<char>>::empty(),
    {
        Bindings { entries: Vec::new() }
    }

    /// The table of a list of bindings. Where the list binds an identifier
    /// more than once, its last binding counts.
    pub fn from_pairs(pairs: Vec<(String, String)>) -> (bindings: Self)
        ensures
            bindings@ == bound_paths(pairs@),
    {
        let mut entries: Vec<(String, String)> = Vec::new();
        let ghost all = pairs@;
        for pair in it: pairs
            invariant
                it.seq() == all,
                distinct_identifiers(entries@),
                bound_paths(entries@) == bound_paths(all.subrange(0, it.index() as int)),
        {
            let ghost longer = all.subrange(0, it.index() + 1);
            assert(longer.drop_last() =~= all.subrange(0, it.index() as int));
            assert(longer.last() == pair);
            bind(&mut entries, pair.0, pair.1);
        }
        assert(all.subrange(0, all.len() as int) =~= all);
        Bindings { entries }
    }

    /// The table with `key` bound to `path`, in place of what `key` was bound
    /// to before.
    pub fn insert(self, key: String, path: String) -> (bindings: Self)
        ensures
            bindings@ == self@.insert(key@, path@),
    {
        proof {
            use_type_invariant(&self);
        }
        let mut entries = self.entries;
        bind(&mut entries, key, path);
        Bindings { entries }
    }

    /// The path bound to exactly this identifier, if there is one.
    pub fn get(&self, key: &str) -> (path: Option<&String>)
        ensures
            path is Some <==> self@.contains_key(key@),
            path matches Some(p) ==> p@ == self@[key@],
    {
        proof {
            use_type_invariant(self);
            lemma_distinct_bindings_all_count(self.entries@);
        }
        let mut i: usize = 0;
        while i < self.entries.len()
            invariant
                0 <= i <= self.entries@.len(),
                forall|j: int| 0 <= j < i ==> (#[trigger] self.entries@[j]).0@ != key@,
                forall|j: int|
                    0 <= j < self.entries@.len() ==> bound_paths(self.entries@).contains_key(
                        (#[trigger] self.entries@[j]).0@,
                    ) && bound_paths(self.entries@)[self.entries@[j].0@] == self.entries@[j].1@,
            decreases self.entries.len() - i,
        {
            if same_text(self.entries[i].0.as_str(), key) {
                return Some(&self.entries[i].1);
            }
            i = i + 1;
        }
        None
    }

    /// The bindings one by one, in the order in which their identifiers were
    /// first bound.
    pub closed spec fn pairs(&self) -> Seq<(String, String)> {
        self.entries@
    }

    /// How many identifiers are bound.
    pub fn len(&self) -> (count: usize)
        ensures
            count == self.pairs().len(),
    {
        self.entries.len()
    }

    /// The bindings as a list: no identifier comes twice in it, and it
    /// denotes this table.
    pub fn as_pairs(&self) -> (pairs: &Vec<(String, String)>)
        ensures
            pairs@ == self.pairs(),
            distinct_identifiers(pairs@),
            bound_paths(pairs@) == self@,
    {
        proof {
            use_type_invariant(self);
        }
        &self.entries
    }
}

/// The configuration of a pack, as its config file declares it.
#[derive(Debug)]
pub struct RawPack {
    /// Who made the pack. Free text.
    pub creator: String,
    /// Where the sounds come from. Free text.
    pub source: String,
    /// The default volume as the file writes it; it has yet to be read as a
    /// number.
    pub default_volume: String,
    /// The sound file of each key identifier.
    pub keys: Bindings,
}

/// One sound file of a pack after the attempt to decode it.
#[derive(Debug)]
pub struct SoundFile<S> {
    /// The key identifier that the configuration binds to the file.
    pub key: String,
    /// The path from which the file was read.
    pub path: String,
    /// The decoded sound, or `None` where the file was missing or could not be
    /// decoded.
    pub sound: Option<S>,
}

/// Why a pack could not be loaded.
#[derive(Debug)]
pub enum PackError {
    /// The pack folder holds neither of the two config files.
    MissingConfig { path: String },
    /// The config file is not a valid pack configuration.
    InvalidConfig { path: String },
    /// The sound file of a key is missing or cannot be decoded.
    SoundLoad { key: String, path: String },
    /// The default volume is not a whole number from 0 to 100.
    InvalidVolume { value: String },
}

/// A `PackError` with its texts as sequences of characters.
pub enum PackErrorView {
    MissingConfig { path: Seq<char> },
    InvalidConfig { path: Seq<char> },
    SoundLoad { key: Seq<char>, path: Seq<char> },
    InvalidVolume { value: Seq<char> },
}

impl View for PackError {
    type V = PackErrorView;

    open spec fn view(&self) -> PackErrorView {
        match self {
            PackError::MissingConfig { path } => PackErrorView::MissingConfig { path: path@ },
            PackError::InvalidConfig { path } => PackErrorView::InvalidConfig { path: path@ },
            PackError::SoundLoad { key, path } => PackErrorView::SoundLoad {
                key: key@,
                path: path@,
            },
            PackError::InvalidVolume { value } => PackErrorView::InvalidVolume { value: value@ },
        }
    }
}

impl PackErrorView {
    /// The one-line message shown to the user. It names the path, key or value
    /// at fault.
    pub open spec fn message(self) -> Seq<char> {
        match self {
            PackErrorView::MissingConfig { path } => "No config file found at path "@ + path,
            PackErrorView::InvalidConfig { path } => "Invalid configuration file in "@ + path,
            PackErrorView::SoundLoad { key, path } => "Failed to load sound for key '"@ + key
                + "' from '"@ + path + "'"@,
            PackErrorView::InvalidVolume { value } => "Invalid default_volume: '"@ + value + "'"@,
        }
    }
}

impl PackError {
    /// The one-line message shown to the user.
    pub fn message(&self) -> (text: String)
        ensures
            text@ == self@.message(),
    {
        match self {
            PackError::MissingConfig { path } => {
                let mut text = "No config file found at path ".to_owned();
                text.append(path.as_str());
                text
            },
            PackError::InvalidConfig { path } => {
                let mut text = "Invalid configuration file in ".to_owned();
                text.append(path.as_str());
                text
            },
            PackError::SoundLoad { key, path } => {
                let mut text = "Failed to load sound for key '".to_owned();
                text.append(key.as_str());
                text.append("' from '");
                text.append(path.as_str());
                text.append("'");
                text
            },
            PackError::InvalidVolume { value } => {
                let mut text = "Invalid default_volume: '".to_owned();
                text.append(value.as_str());
                text.append("'");
                text
            },
        }
    }
}

/// The index of the first file that did not decode, if there is one.
pub open spec fn first_failure<S>(files: Seq<SoundFile<S>>) -> Option<int>
    decreases files.len(),
{
    if files.len() == 0 {
        None
    } else {
        match first_failure(files.drop_last()) {
            Some(i) => Some(i),
            None => if files.last().sound is None {
                Some(files.len() - 1)
            } else {
                None
            },
        }
    }
}

/// The table that the decoded files fill: each key identifier with its sound,
/// the last file counting where an identifier comes twice.
pub open spec fn decoded_sounds<S>(files: Seq<SoundFile<S>>) -> Map<Seq<char>, S>
    decreases files.len(),
{
    if files.len() == 0 {
        Map::empty()
    } else {
        let rest = decoded_sounds(files.drop_last());
        match files.last().sound {
            Some(sound) => rest.insert(files.last().key@, sound),
            None => rest,
        }
    }
}

/// The volume that a configuration declares: a whole number from 0 to 100.
pub open spec fn parsed_volume(text: Seq<char>) -> Option<u32> {
    match parsed_number(text) {
        Some(volume) => if volume <= FULL_VOLUME {
            Some(volume)
        } else {
            None
        },
        None => None,
    }
}

/// What loading a pack comes to. A pack loads whole or not at all: the first
/// file that did not decode fails the load and is named by the error; then a
/// default volume that is no percentage fails it; otherwise the pack binds
/// exactly the identifiers of the files.
pub open spec fn load_outcome<S>(
    pack_name: Seq<char>,
    default_volume: Seq<char>,
    files: Seq<SoundFile<S>>,
) -> Result<PackView<S>, PackErrorView> {
    match first_failure(files) {
        Some(i) => Err(PackErrorView::SoundLoad { key: files[i].key@, path: files[i].path@ }),
        None => match parsed_volume(default_volume) {
            None => Err(PackErrorView::InvalidVolume { value: default_volume }),
            Some(volume) => Ok(
                PackView {
                    name: pack_name,
                    default_volume: volume,
                    sounds: decoded_sounds(files),
                },
            ),
        },
    }
}

/// A failure among the first files is the failure of the whole list.
pub proof fn lemma_first_failure_extends<S>(files: Seq<SoundFile<S>>, k: int)
    requires
        0 <= k <= files.len(),
        first_failure(files.subrange(0, k)) is Some,
    ensures
        first_failure(files) == first_failure(files.subrange(0, k)),
    decreases files.len() - k,
{
    if k == files.len() {
        assert(files.subrange(0, k) =~= files);
    } else {
        let longer = files.subrange(0, k + 1);
        assert(longer.drop_last() =~= files.subrange(0, k));
        lemma_first_failure_extends(files, k + 1);
    }
}

/// The configuration text that a pack folder offers. A folder may hold the
/// configuration under two file names; the one in relaxed syntax is
/// preferred.
pub open spec fn config_choice(
    path: Seq<char>,
    relaxed: Option<Seq<char>>,
    strict: Option<Seq<char>>,
) -> Result<Seq<char>, PackErrorView> {
    match relaxed {
        Some(text) => Ok(text),
        None => match strict {
            Some(text) => Ok(text),
            None => Err(PackErrorView::MissingConfig { path }),
        },
    }
}

/// Picks the configuration of the pack folder at `path` from what could be
/// read of its two config files: `relaxed` is the text of the file in relaxed
/// syntax, `strict` that of the file in strict syntax, each `None` where the
/// file could not be read.
pub fn read_config_file(
    path: &str,
    relaxed: Option<String>,
    strict: Option<String>,
) -> (config: Result<String, PackError>)
    ensures
        match config {
            Ok(text) => config_choice(path@, relaxed.deep_view(), strict.deep_view()) == Ok::<
                Seq<char>,
                PackErrorView,
            >(text@),
            Err(error) => config_choice(path@, relaxed.deep_view(), strict.deep_view()) == Err::<
                Seq<char>,
                PackErrorView,
            >(error@),
        },
{
    match relaxed {
        Some(text) => Ok(text),
        None => match strict {
            Some(text) => Ok(text),
            None => Err(PackError::MissingConfig { path: path.to_owned() }),
        },
    }
}

/// What `first_failure` finds: the first file without a sound, and nothing
/// where every file has one.
pub proof fn lemma_first_failure_is_first<S>(files: Seq<SoundFile<S>>)
    ensures
        match first_failure(files) {
            Some(i) => 0 <= i < files.len() && files[i].sound is None && forall|j: int|
                0 <= j < i ==> (#[trigger] files[j]).sound is Some,
            None => forall|j: int| 0 <= j < files.len() ==> (#[trigger] files[j]).sound is Some,
        },
    decreases files.len(),
{
    if files.len() > 0 {
        let front = files.drop_last();
        lemma_first_failure_is_first(front);
        assert forall|j: int| 0 <= j < front.len() implies front[j] == files[j] by {}
    }
}

/// A pack of which one sound file did not decode does not load: the load
/// fails with the key and the path of the first such file, whatever the other
/// files and the default volume are.
pub proof fn lemma_missing_sound_fails_load<S>(
    pack_name: Seq<char>,
    default_volume: Seq<char>,
    files: Seq<SoundFile<S>>,
    missing: int,
)
    requires
        0 <= missing < files.len(),
        files[missing].sound is None,
    ensures
        load_outcome(pack_name, default_volume, files) matches Err(
            PackErrorView::SoundLoad { key, path },
        ) && exists|i: int|
            0 <= i <= missing && (#[trigger] files[i]).sound is None && key == files[i].key@ && path
                == files[i].path@,
{
    lemma_first_failure_is_first(files);
}

/// A pack that loads binds exactly the identifiers of its files, each to the
/// sound of the last file that names it.
pub proof fn lemma_decoded_sounds_bind_the_files<S>(files: Seq<SoundFile<S>>, key: Seq<char>)
    requires
        first_failure(files) is None,
    ensures
        decoded_sounds(files).contains_key(key) <==> exists|i: int|
            0 <= i < files.len() && (#[trigger] files[i]).key@ == key,
        decoded_sounds(files).contains_key(key) ==> exists|i: int|
            0 <= i < files.len() && (#[trigger] files[i]).key@ == key && files[i].sound == Some(
                decoded_sounds(files)[key],
            ) && forall|j: int| i < j < files.len() ==> (#[trigger] files[j]).key@ != key,
    decreases files.len(),
{
    if files.len() > 0 {
        let front = files.drop_last();
        let last = files.len() - 1;
        assert forall|j: int| 0 <= j < front.len() implies front[j] == files[j] by {}
        lemma_decoded_sounds_bind_the_files(front, key);
        if files[last].key@ != key && decoded_sounds(front).contains_key(key) {
            let i = choose|i: int|
                0 <= i < front.len() && (#[trigger] front[i]).key@ == key && front[i].sound
                    == Some(decoded_sounds(front)[key]) && forall|j: int|
                    i < j < front.len() ==> (#[trigger] front[j]).key@ != key;
            assert forall|j: int| i < j < files.len() implies (#[trigger] files[j]).key@ != key by {}
        }
    }
}

/// A loaded sound pack. `S` is the decoded, ready-to-play form of one sound.
#[derive(Debug)]
pub struct Pack<S> {
    name: String,
    default_volume: u32,
    keys: Vec<(String, S)>,
}

impl<S> View for Pack<S> {
    type V = PackView<S>;

    closed spec fn view(&self) -> PackView<S> {
        PackView {
            name: self.name@,
            default_volume: self.default_volume,
            sounds: bound_sounds(self.keys@),
        }
    }
}

impl<S> Pack<S> {
    #[verifier::type_invariant]
    spec fn volume_is_percentage(&self) -> bool {
        self.default_volume <= FULL_VOLUME
    }

    /// Assembles a pack from the name of its folder, the default volume that
    /// its configuration declares and its sound files after decoding.
    pub fn load_from(
        pack_name: &str,
        default_volume: &str,
        files: Vec<SoundFile<S>>,
    ) -> (loaded: Result<Pack<S>, PackError>)
        ensures
            match loaded {
                Ok(pack) => load_outcome(pack_name@, default_volume@, files@) == Ok::<
                    PackView<S>,
                    PackErrorView,
                >(pack@),
                Err(error) => load_outcome(pack_name@, default_volume@, files@) == Err::<
                    PackView<S>,
                    PackErrorView,
                >(error@),
            },
    {
        let mut i: usize = 0;
        while i < files.len()
            invariant
                0 <= i <= files@.len(),
                first_failure(files@.subrange(0, i as int)) is None,
            decreases files.len() - i,
        {
            let ghost longer = files@.subrange(0, i + 1);
            assert(longer.drop_last() =~= files@.subrange(0, i as int));
            if files[i].sound.is_none() {
                proof {
                    lemma_first_failure_extends(files@, i + 1);
                }
                return Err(
                    PackError::SoundLoad { key: files[i].key.clone(), path: files[i].path.clone() },
                );
            }
            i = i + 1;
        }
        assert(files@.subrange(0, i as int) =~= files@);
        let volume = match parse_number(default_volume) {
            Some(volume) => volume,
            None => {
                return Err(PackError::InvalidVolume { value: default_volume.to_owned() });
            },
        };
        if volume > FULL_VOLUME {
            return Err(PackError::InvalidVolume { value: default_volume.to_owned() });
        }
        let mut keys: Vec<(String, S)> = Vec::new();
        let ghost all = files@;
        for file in it: files
            invariant
                it.seq() == all,
                bound_sounds(keys@) == decoded_sounds(all.subrange(0, it.index() as int)),
        {
            let ghost longer = all.subrange(0, it.index() + 1);
            assert(longer.drop_last() =~= all.subrange(0, it.index() as int));
            assert(longer.last() == file);
            let ghost before = keys@;
            if let Some(sound) = file.sound {
                keys.push((file.key, sound));
                assert(keys@.drop_last() =~= before);
            }
        }
        Ok(Pack { name: pack_name.to_owned(), default_volume: volume, keys })
    }

    /// The name of the folder that the pack was loaded from.
    pub fn name(&self) -> (name: &str)
        ensures
            name@ == self@.name,
    {
        self.name.as_str()
    }

    /// The volume that the pack asks for, a percentage.
    pub fn default_volume(&self) -> (volume: u32)
        ensures
            volume == self@.default_volume,
            volume <= FULL_VOLUME,
    {
        proof {
            use_type_invariant(self);
        }
        self.default_volume
    }

    /// The sound bound to exactly this identifier, if there is one. Identifiers
    /// are compared as they are written: no case is folded.
    pub fn get(&self, key: &str) -> (sound: Option<&S>)
        ensures
            sound is Some <==> self@.sounds.contains_key(key@),
            sound matches Some(s) ==> *s == self@.sounds[key@],
    {
        let mut i: usize = self.keys.len();
        assert(self.keys@.subrange(0, i as int) =~= self.keys@);
        while i > 0
            invariant
                0 <= i <= self.keys@.len(),
                bound_sounds(self.keys@).contains_key(key@) <==> bound_sounds(
                    self.keys@.subrange(0, i as int),
                ).contains_key(key@),
                bound_sounds(self.keys@).contains_key(key@) ==> bound_sounds(self.keys@)[key@]
                    == bound_sounds(self.keys@.subrange(0, i as int))[key@],
            decreases i,
        {
            let ghost prefix = self.keys@.subrange(0, i as int);
            assert(prefix.drop_last() =~= self.keys@.subrange(0, i - 1));
            assert(prefix.last() == self.keys@[i - 1]);
            i = i - 1;
            if same_text(self.keys[i].0.as_str(), key) {
                return Some(&self.keys[i].1);
            }
        }
        None
    }

    /// The sound that a press of `key` triggers: the key's own sound, else the
    /// fallback entry's sound, else none.
    pub fn resolve(&self, key: &str) -> (sound: Option<&S>)
        ensures
            sound is Some <==> self@.resolve(key@) is Some,
            sound matches Some(s) ==> self@.resolve(key@) == Some(*s),
    {
        match self.get(key) {
            Some(sound) => Some(sound),
            None => self.get("Unknown"),
        }
    }

    /// Whether the pack has a fallback entry. A pack without one stays silent
    /// on every key that it does not bind.
    pub fn has_fallback(&self) -> (present: bool)
        ensures
            present == self@.sounds.contains_key(fallback_name()),
    {
        self.get("Unknown").is_some()
    }
}

/// The identifier that a legacy configuration means by the text of a numeric
/// key code, or `None` where the text is no number.
pub open spec fn code_identifier(code: Seq<char>) -> Option<Seq<char>> {
    match parsed_number(code) {
        Some(number) => Some(wide_key(number).name()),
        None => None,
    }
}

/// The table that the definitions of a legacy configuration translate to. An
/// entry without a path is dropped, and so is one whose code is no number;
/// every other entry binds the identifier of its code, unlisted codes the
/// fallback identifier, to its path. Where two entries come to the same
/// identifier, the later one in the order given counts.
pub open spec fn translated(defines: Seq<(String, Option<String>)>) -> Map<Seq<char>, Seq<char>>
    decreases defines.len(),
{
    if defines.len() == 0 {
        Map::empty()
    } else {
        let rest = translated(defines.drop_last());
        match (code_identifier(defines.last().0@), defines.last().1) {
            (Some(identifier), Some(path)) => rest.insert(identifier, path@),
            _ => rest,
        }
    }
}

/// Whether a definition is kept under `identifier`: it has a path, and its
/// code is a number that translates to the identifier.
pub open spec fn defines_identifier(
    define: (String, Option<String>),
    identifier: Seq<char>,
) -> bool {
    define.1 is Some && code_identifier(define.0@) == Some(identifier)
}

/// What the translated table binds: exactly the identifiers of the kept
/// definitions, each to the path of the last definition kept under it.
pub proof fn lemma_translated_binds_kept_definitions(
    defines: Seq<(String, Option<String>)>,
    identifier: Seq<char>,
)
    ensures
        translated(defines).contains_key(identifier) <==> exists|i: int|
            0 <= i < defines.len() && defines_identifier(#[trigger] defines[i], identifier),
        translated(defines).contains_key(identifier) ==> exists|i: int|
            0 <= i < defines.len() && defines_identifier(#[trigger] defines[i], identifier)
                && translated(defines)[identifier] == defines[i].1->0@ && forall|j: int|
                i < j < defines.len() ==> !defines_identifier(#[trigger] defines[j], identifier),
    decreases defines.len(),
{
    if defines.len() > 0 {
        let front = defines.drop_last();
        let last = defines.len() - 1;
        assert forall|j: int| 0 <= j < front.len() implies front[j] == defines[j] by {}
        lemma_translated_binds_kept_definitions(front, identifier);
        if defines_identifier(defines[last], identifier) {
            assert(translated(defines)[identifier] == defines[last].1->0@);
        } else {
            assert(translated(defines).contains_key(identifier) == translated(front).contains_key(
                identifier,
            ));
            if translated(front).contains_key(identifier) {
                let i = choose|i: int|
                    0 <= i < front.len() && defines_identifier(#[trigger] front[i], identifier)
                        && translated(front)[identifier] == front[i].1->0@ && forall|j: int|
                        i < j < front.len() ==> !defines_identifier(#[trigger] front[j], identifier);
                assert(front[i] == defines[i]);
                assert(translated(defines)[identifier] == translated(front)[identifier]);
                assert forall|j: int| i < j < defines.len() implies !defines_identifier(
                    #[trigger] defines[j],
                    identifier,
                ) by {
                    if j < last {
                        assert(front[j] == defines[j]);
                    }
                }
            } else {
                assert forall|i: int| 0 <= i < defines.len() implies !defines_identifier(
                    #[trigger] defines[i],
                    identifier,
                ) by {
                    if i < last {
                        assert(front[i] == defines[i]);
                    }
                }
            }
        }
    }
}

impl RawPack {
    /// Whether the configuration has a fallback entry. Without one, a pack
    /// stays silent on every key that it does not bind.
    pub fn has_fallback(&self) -> (present: bool)
        ensures
            present == self.keys@.contains_key(fallback_name()),
    {
        self.keys.get("Unknown").is_some()
    }
}

/// Translates the definitions of a legacy pack configuration, a table from
/// the text of a numeric key code to the path of a sound file, into a
/// configuration of this library's own format. The new configuration names no
/// creator and no source and has a default volume of 50. It binds each
/// identifier once: where two codes come to the same identifier, the later
/// definition in the order given counts.
pub fn from_mechvibes(defines: Vec<(String, Option<String>)>) -> (pack: RawPack)
    ensures
        pack.creator@ == Seq::<char>::empty(),
        pack.source@ == Seq::<char>::empty(),
        pack.default_volume@ == "50"@,
        pack.keys@ == translated(defines@),
        distinct_identifiers(pack.keys.pairs()),
        bound_paths(pack.keys.pairs()) == translated(defines@),
{
    let mut keys = Bindings::new();
    let ghost all = defines@;
    for define in it: defines
        invariant
            it.seq() == all,
            keys@ == translated(all.subrange(0, it.index() as int)),
    {
        let ghost longer = all.subrange(0, it.index() + 1);
        assert(longer.drop_last() =~= all.subrange(0, it.index() as int));
        assert(longer.last() == define);
        let (code, path) = define;
        if let Some(path) = path {
            if let Some(number) = parse_number(code.as_str()) {
                let identifier = key_from_wide_code(number).identifier();
                keys = keys.insert(identifier, path);
            }
        }
    }
    assert(all.subrange(0, all.len() as int) =~= all);
    proof {
        use_type_invariant(&keys);
    }
    RawPack { creator: String::new(), source: String::new(), default_volume: "50".to_owned(), keys }
}

} // verus!
