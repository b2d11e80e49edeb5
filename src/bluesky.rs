use vstd::prelude::*;
use serde::Deserialize;

verus! {

#[verifier::external_type_specification]
#[verifier::external_body]
pub struct ExCborValue(serde_cbor::Value);

/// A decoded CBOR item, as far as the firehose logic reads it: texts, byte
/// strings, arrays and maps (entries sorted by key, as the decoder keeps
/// them); anything else is `Other`.
pub enum CborValue {
    Text(String),
    Bytes(Vec<u8>),
    Array(Vec<CborValue>),
    Entries(Vec<(CborValue, CborValue)>),
    Other,
}

/// The body of a firehose frame: the second of the two CBOR items that
/// `bytes` starts with, if both decode.
pub uninterp spec fn cbor_frame_body(bytes: Seq<u8>) -> Option<CborValue>;

/// The CBOR item that `bytes` holds, if it holds exactly one that decodes.
pub uninterp spec fn cbor_item(bytes: Seq<u8>) -> Option<CborValue>;

/// Relies on the variants of `serde_cbor::Value`: moves a decoded value
/// into the library's form, one variant for another.
#[verifier::external_body]
fn cbor_from_value(v: serde_cbor::Value) -> (r: CborValue) {
    match v {
        serde_cbor::Value::Text(s) => CborValue::Text(s),
        serde_cbor::Value::Bytes(b) => CborValue::Bytes(b),
        serde_cbor::Value::Array(a) => CborValue::Array(a.into_iter().map(cbor_from_value).collect()),
        serde_cbor::Value::Map(m) => {
            CborValue::Entries(m.into_iter().map(|(k, x)| (cbor_from_value(k), cbor_from_value(x))).collect())
        },
        _ => CborValue::Other,
    }
}

/// Relies on `serde_cbor::Deserializer::from_slice` and the `Deserialize`
/// impl of `serde_cbor::Value`: decodes two items in a row and keeps the second.
#[verifier::external_body]
fn decode_frame_body(bytes: &[u8]) -> (r: Option<CborValue>)
    ensures
        r == cbor_frame_body(bytes@),
{
    let mut decoder = serde_cbor::Deserializer::from_slice(bytes);
    serde_cbor::Value::deserialize(&mut decoder).ok()?;
    serde_cbor::Value::deserialize(&mut decoder).ok().map(cbor_from_value)
}

/// Relies on `serde_cbor::from_slice`: decodes the one item of `bytes`.
#[verifier::external_body]
fn decode_item(bytes: &[u8]) -> (r: Option<CborValue>)
    ensures
        r == cbor_item(bytes@),
{
    serde_cbor::from_slice::<serde_cbor::Value>(bytes).ok().map(cbor_from_value)
}

/// The value of the first entry of `entries` whose key is the text `key`.
pub open spec fn lookup(entries: Seq<(CborValue, CborValue)>, key: Seq<char>) -> Option<CborValue>
    decreases entries.len(),
{
    if entries.len() == 0 {
        None
    } else if entries[0].0 is Text && entries[0].0->Text_0@ == key {
        Some(entries[0].1)
    } else {
        lookup(entries.drop_first(), key)
    }
}

/// The text of `v`, if it is one.
pub open spec fn text_of(v: Option<CborValue>) -> Option<Seq<char>> {
    match v {
        Some(CborValue::Text(s)) => Some(s@),
        _ => None,
    }
}

/// The action of the first operation listed under `ops` in `map`.
pub open spec fn first_action(map: Seq<(CborValue, CborValue)>) -> Option<Seq<char>> {
    match lookup(map, "ops"@) {
        Some(CborValue::Array(ops)) => if ops.len() > 0 {
            match ops[0] {
                CborValue::Entries(op) => text_of(lookup(op@, "action"@)),
                _ => None,
            }
        } else {
            None
        },
        _ => None,
    }
}

/// The bytes under `blocks` in `map`.
pub open spec fn blocks_of(map: Seq<(CborValue, CborValue)>) -> Option<Seq<u8>> {
    match lookup(map, "blocks"@) {
        Some(CborValue::Bytes(b)) => Some(b@),
        _ => None,
    }
}

/// The text of a record, when the record is a post.
pub open spec fn post_text_of(v: Option<CborValue>) -> Option<Seq<char>> {
    match v {
        Some(CborValue::Entries(m)) => if text_of(lookup(m@, "$type"@)) == Some("app.bsky.feed.post"@) {
            text_of(lookup(m@, "text"@))
        } else {
            None
        },
        _ => None,
    }
}

/// One operation of a commit.
pub struct Operation {
    pub action: String,
}

/// A commit frame of the firehose: its operations and the CAR archive of
/// its blocks.
pub struct FirehoseMessage {
    pub ops: Vec<Operation>,
    pub blocks: Vec<u8>,
}

/// The first entry of `entries` whose key is the text `key`.
fn lookup_entry<'a>(entries: &'a Vec<(CborValue, CborValue)>, key: &String) -> (r: Option<&'a CborValue>)
    ensures
        match r {
            Some(v) => lookup(entries@, key@) == Some(*v),
            None => lookup(entries@, key@) is None,
        },
{
    let mut i: usize = 0;
    proof {
        assert(entries@.subrange(0, entries.len() as int) =~= entries@);
    }
    while i < entries.len()
        invariant
            i <= entries.len(),
            lookup(entries@, key@) == lookup(entries@.subrange(i as int, entries.len() as int), key@),
        decreases entries.len() - i,
    {
        let ghost rest = entries@.subrange(i as int, entries.len() as int);
        proof {
            assert(rest.drop_first() =~= entries@.subrange(i + 1, entries.len() as int));
            assert(rest[0] == entries@[i as int]);
        }
        match &entries[i].0 {
            CborValue::Text(k) => {
                if *k == *key {
                    return Some(&entries[i].1);
                }
            },
            _ => {},
        }
        i = i + 1;
    }
    None
}

impl FirehoseMessage {
    /// Reads a commit frame: the first operation's action and the blocks.
    pub fn from_cbor(bytes: &[u8]) -> (r: Option<FirehoseMessage>)
        ensures
            match cbor_frame_body(bytes@) {
                Some(CborValue::Entries(m)) => match (first_action(m@), blocks_of(m@)) {
                    (Some(a), Some(b)) => r matches Some(f) && f.ops.len() == 1 && f.ops[0].action@ == a
                        && f.blocks@ == b,
                    _ => r is None,
                },
                _ => r is None,
            },
    {
        let body = decode_frame_body(bytes);
        match body {
            Some(CborValue::Entries(m)) => {
                let ops = match FirehoseMessage::extract_ops(&m) {
                    Some(ops) => ops,
                    None => return None,
                };
                let blocks = match FirehoseMessage::extract_blocks(&m) {
                    Some(b) => b,
                    None => return None,
                };
                Some(FirehoseMessage { ops, blocks })
            },
            _ => None,
        }
    }

    /// The first operation listed under `ops`, with its action.
    pub fn extract_ops(map: &Vec<(CborValue, CborValue)>) -> (r: Option<Vec<Operation>>)
        ensures
            match first_action(map@) {
                Some(a) => r matches Some(ops) && ops.len() == 1 && ops[0].action@ == a,
                None => r is None,
            },
    {
        let ops = match lookup_entry(map, &"ops".to_owned()) {
            Some(CborValue::Array(arr)) => arr,
            _ => return None,
        };
        if ops.len() == 0 {
            return None;
        }
        let op = match &ops[0] {
            CborValue::Entries(m) => m,
            _ => return None,
        };
        match lookup_entry(op, &"action".to_owned()) {
            Some(CborValue::Text(action)) => {
                let mut r: Vec<Operation> = Vec::new();
                r.push(Operation { action: action.clone() });
                Some(r)
            },
            _ => None,
        }
    }

    /// The bytes listed under `blocks`.
    pub fn extract_blocks(map: &Vec<(CborValue, CborValue)>) -> (r: Option<Vec<u8>>)
        ensures
            match blocks_of(map@) {
                Some(b) => r matches Some(v) && v@ == b,
                None => r is None,
            },
    {
        match lookup_entry(map, &"blocks".to_owned()) {
            Some(CborValue::Bytes(b)) => Some(b.clone()),
            _ => None,
        }
    }

    /// Whether the blocks of the commit are to be read for posts: its first
    /// operation creates records. `None` when the commit lists no operation.
    pub fn creates_records(&self) -> (r: Option<bool>)
        ensures
            self.ops.len() == 0 ==> r is None,
            self.ops.len() > 0 ==> r == Some(self.ops[0].action@ == "create"@),
    {
        if self.ops.len() == 0 {
            None
        } else {
            Some(self.ops[0].action == "create".to_owned())
        }
    }

    /// The text of the record that `block` holds, when it is a post.
    pub fn process_block(block: &[u8]) -> (r: Option<String>)
        ensures
            match post_text_of(cbor_item(block@)) {
                Some(t) => r matches Some(s) && s@ == t,
                None => r is None,
            },
    {
        match decode_item(block) {
            Some(CborValue::Entries(m)) => {
                match lookup_entry(&m, &"$type".to_owned()) {
                    Some(CborValue::Text(t)) => {
                        if *t == "app.bsky.feed.post".to_owned() {
                            match lookup_entry(&m, &"text".to_owned()) {
                                Some(CborValue::Text(text)) => Some(text.clone()),
                                _ => None,
                            }
                        } else {
                            None
                        }
                    },
                    _ => None,
                }
            },
            _ => None,
        }
    }
}

} // verus!
