//! The result sink: the key under which a record is stored, and a sink held in
//! memory that states what any sink owes its callers.

use vstd::prelude::*;
use vstd::hash_map::StringHashMap;
use vstd::string::StringExecFns;
use vstd::string::StrSliceExecFns;

verus! {

/// The character of a decimal digit.
pub open spec fn spec_digit(d: nat) -> char {
    if d == 0 {
        '0'
    } else if d == 1 {
        '1'
    } else if d == 2 {
        '2'
    } else if d == 3 {
        '3'
    } else if d == 4 {
        '4'
    } else if d == 5 {
        '5'
    } else if d == 6 {
        '6'
    } else if d == 7 {
        '7'
    } else if d == 8 {
        '8'
    } else {
        '9'
    }
}

/// A number in decimal, without leading zeros.
pub open spec fn spec_decimal(n: nat) -> Seq<char>
    decreases n,
{
    if n < 10 {
        seq![spec_digit(n)]
    } else {
        spec_decimal(n / 10).push(spec_digit(n % 10))
    }
}

/// A hash without its `0x` prefix; a hash that does not start with `0x` is
/// left as it is.
pub open spec fn spec_object_key(hash: Seq<char>) -> Seq<char> {
    if hash.len() >= 2 && hash[0] == '0' && hash[1] == 'x' {
        hash.subrange(2, hash.len() as int)
    } else {
        hash
    }
}

/// The directory of a block's records: `out/<block>`.
pub open spec fn spec_block_dir(block: u32) -> Seq<char> {
    "out/"@ + spec_decimal(block as nat)
}

/// The file of a record: `out/<block>/<key>.json`, with the key of the hash.
pub open spec fn spec_record_path(block: u32, hash: Seq<char>) -> Seq<char> {
    spec_block_dir(block) + "/"@ + spec_object_key(hash) + ".json"@
}

/// The one-character text of a decimal digit.
fn digit_text(d: u32) -> (text: &'static str)
    requires
        d < 10,
    ensures
        text@ == seq![spec_digit(d as nat)],
{
    proof {
        reveal_strlit("0");
        reveal_strlit("1");
        reveal_strlit("2");
        reveal_strlit("3");
        reveal_strlit("4");
        reveal_strlit("5");
        reveal_strlit("6");
        reveal_strlit("7");
        reveal_strlit("8");
        reveal_strlit("9");
    }
    let text = if d == 0 {
        "0"
    } else if d == 1 {
        "1"
    } else if d == 2 {
        "2"
    } else if d == 3 {
        "3"
    } else if d == 4 {
        "4"
    } else if d == 5 {
        "5"
    } else if d == 6 {
        "6"
    } else if d == 7 {
        "7"
    } else if d == 8 {
        "8"
    } else {
        "9"
    };
    assert(text@ =~= seq![spec_digit(d as nat)]);
    text
}

/// Writes a number in decimal.
pub fn decimal(n: u32) -> (text: String)
    ensures
        text@ == spec_decimal(n as nat),
    decreases n,
{
    if n < 10 {
        String::from_str(digit_text(n))
    } else {
        let mut text = decimal(n / 10);
        text.append(digit_text(n % 10));
        assert(text@ =~= spec_decimal(n as nat));
        text
    }
}

/// The key of a record in an object store: the hash without its `0x` prefix.
pub fn object_key(hash: &str) -> (key: String)
    ensures
        key@ == spec_object_key(hash@),
{
    let len = hash.unicode_len();
    if len >= 2 && hash.get_char(0) == '0' && hash.get_char(1) == 'x' {
        String::from_str(hash.substring_char(2, len))
    } else {
        String::from_str(hash)
    }
}

/// The directory that holds the records of a block: `out/<block>`.
pub fn block_dir(block: u32) -> (dir: String)
    ensures
        dir@ == spec_block_dir(block),
{
    let mut dir = String::from_str("out/");
    let number = decimal(block);
    dir.append(number.as_str());
    dir
}

/// The file that holds a record: `out/<block>/<key>.json`.
pub fn record_path(block: u32, hash: &str) -> (path: String)
    ensures
        path@ == spec_record_path(block, hash@),
{
    let mut path = block_dir(block);
    path.append("/");
    let key = object_key(hash);
    path.append(key.as_str());
    path.append(".json");
    path
}

/// A sink held in memory: each key holds the content last written under it.
#[verifier::reject_recursive_types(V)]
pub struct MemorySink<V> {
    entries: StringHashMap<V>,
}

impl<V> View for MemorySink<V> {
    type V = Map<Seq<char>, V>;

    closed spec fn view(&self) -> Map<Seq<char>, V> {
        self.entries@
    }
}

impl<V> MemorySink<V> {
    /// An empty sink.
    pub fn new() -> (sink: Self)
        ensures
            sink@ == Map::<Seq<char>, V>::empty(),
    {
        MemorySink { entries: StringHashMap::new() }
    }

    /// Stores `content` under `key`, in place of what the key held before.
    /// Every other key keeps its content.
    pub fn put(&mut self, key: String, content: V)
        ensures
            final(self)@ == old(self)@.insert(key@, content),
    {
        self.entries.insert(key, content);
    }

    /// The content last written under `key`, or `None` where nothing was.
    pub fn get(&self, key: &str) -> (content: Option<&V>)
        ensures
            content is Some <==> self@.contains_key(key@),
            content matches Some(v) ==> *v == self@[key@],
    {
        self.entries.get(key)
    }

    /// Whether anything was written under `key`.
    pub fn contains(&self, key: &str) -> (b: bool)
        ensures
            b == self@.contains_key(key@),
    {
        self.entries.contains_key(key)
    }

    /// The number of keys written.
    pub fn len(&self) -> (n: usize)
        ensures
            n == self@.len(),
    {
        self.entries.len()
    }
}

/// Idempotent sink: after two writes under one key, the key holds the content
/// of the second write, and the sink is as if only the second had been made.
pub proof fn lemma_put_overwrites<V>(sink: Map<Seq<char>, V>, key: Seq<char>, first: V, second: V)
    ensures
        sink.insert(key, first).insert(key, second)[key] == second,
        sink.insert(key, first).insert(key, second) == sink.insert(key, second),
        sink.insert(key, first).insert(key, first) == sink.insert(key, first),
{
    assert(sink.insert(key, first).insert(key, second) =~= sink.insert(key, second));
    assert(sink.insert(key, first).insert(key, first) =~= sink.insert(key, first));
}

/// A write leaves every other key as it was.
pub proof fn lemma_put_keeps_others<V>(sink: Map<Seq<char>, V>, key: Seq<char>, content: V, other: Seq<char>)
    requires
        other != key,
    ensures
        sink.insert(key, content).contains_key(other) == sink.contains_key(other),
        sink.contains_key(other) ==> sink.insert(key, content)[other] == sink[other],
{
}

} // verus!
