use vstd::prelude::*;
use vstd::arithmetic::power2::{pow2, lemma_pow2_unfold, lemma2_to64, lemma2_to64_rest, lemma_pow2_strictly_increases};
use vstd::arithmetic::mul::lemma_mul_strict_inequality;

verus! {

/// A keyed map of structured values. Keys are meant to be unique; lookups
/// return the first field with a matching key.
#[derive(Debug)]
pub struct Struct {
    pub fields: Vec<(String, Value)>,
}

/// An ordered list of structured values.
#[derive(Debug)]
pub struct ListValue {
    pub values: Vec<Value>,
}

/// The payload of a structured value. A number is held as the bit pattern
/// of an IEEE-754 binary64 value, which the library carries but never reads.
#[derive(Debug)]
pub enum Kind {
    NullValue(i32),
    NumberValue(u64),
    StringValue(String),
    BoolValue(bool),
    StructValue(Struct),
    ListValue(ListValue),
}

/// A structured value; `kind == None` is an unset value.
#[derive(Debug)]
pub struct Value {
    pub kind: Option<Kind>,
}

#[derive(Debug)]
pub struct FunctionCall {
    pub id: String,
    pub name: String,
    pub args: Option<Struct>,
}

#[derive(Debug)]
pub struct FunctionResponse {
    pub id: String,
    pub name: String,
    pub response: Option<Struct>,
}

#[derive(Debug)]
pub struct Blob {
    pub mime_type: String,
    pub data: Vec<u8>,
}

#[derive(Debug)]
pub struct FileData {
    pub mime_type: String,
    pub file_uri: String,
}

#[derive(Debug)]
pub struct ExecutableCode {
    pub language: i32,
    pub code: String,
}

#[derive(Debug)]
pub struct CodeExecutionResult {
    pub outcome: i32,
    pub output: String,
}

/// The payload of one part of a turn.
#[derive(Debug)]
pub enum Data {
    Text { text: String },
    InlineData(Blob),
    FunctionCall(FunctionCall),
    FunctionResponse(FunctionResponse),
    FileData(FileData),
    ExecutableCode(ExecutableCode),
    CodeExecutionResult(CodeExecutionResult),
}

/// One part of a turn; a part without payload is valid.
#[derive(Debug)]
pub struct Part {
    pub data: Option<Data>,
}

/// Who authored a turn.
#[derive(Clone, Copy, Debug, PartialEq, Eq, Structural)]
pub enum Role {
    User,
    Model,
    System,
    Tool,
}

/// One turn of the conversation: a role and its ordered parts.
#[derive(Debug)]
pub struct Content {
    pub parts: Vec<Part>,
    pub role: Role,
}

impl From<String> for Data {
    fn from(value: String) -> (r: Data)
        ensures
            r == (Data::Text { text: value }),
    {
        Data::Text { text: value }
    }
}

impl vstd::std_specs::convert::FromSpecImpl<String> for Data {
    open spec fn obeys_from_spec() -> bool {
        true
    }

    open spec fn from_spec(v: String) -> Data {
        Data::Text { text: v }
    }
}

impl Part {
    pub fn new(data: Data) -> (r: Part)
        ensures
            r.data == Some(data),
    {
        Part { data: Some(data) }
    }
}

impl Content {
    pub fn system(parts: Vec<Part>) -> (r: Content)
        ensures
            r.role == Role::System,
            r.parts == parts,
    {
        Content { parts, role: Role::System }
    }

    pub fn tool(parts: Vec<Part>) -> (r: Content)
        ensures
            r.role == Role::Tool,
            r.parts == parts,
    {
        Content { parts, role: Role::Tool }
    }
}

/// No two fields of `s` have the same key.
pub open spec fn keys_distinct(s: Struct) -> bool {
    forall|i: int, j: int|
        0 <= i < j < s.fields@.len() ==> (#[trigger] s.fields@[i]).0@ != (#[trigger] s.fields@[j]).0@
}

/// The first field of `fields` whose key is `key`, if any.
pub open spec fn field_index(fields: Seq<(String, Value)>, key: Seq<char>) -> int
    decreases fields.len(),
{
    if fields.len() == 0 {
        -1
    } else if fields[0].0@ == key {
        0
    } else {
        let rest = field_index(fields.drop_first(), key);
        if rest < 0 { -1 } else { rest + 1 }
    }
}

/// The value stored under `key` in `s`, if any.
pub open spec fn field_of(s: Struct, key: Seq<char>) -> Option<Value> {
    let i = field_index(s.fields@, key);
    if i < 0 { None } else { Some(s.fields@[i].1) }
}

impl Struct {
    /// Looks up the first field whose key is `key`.
    pub fn get(&self, key: &String) -> (r: Option<&Value>)
        ensures
            match r {
                Some(v) => field_of(*self, key@) == Some(*v),
                None => field_of(*self, key@) is None,
            },
    {
        let mut i: usize = 0;
        assert(self.fields@.skip(0) =~= self.fields@);
        while i < self.fields.len()
            invariant
                0 <= i <= self.fields.len(),
                field_index(self.fields@, key@) == if field_index(self.fields@.skip(i as int), key@)
                    < 0 {
                    -1
                } else {
                    field_index(self.fields@.skip(i as int), key@) + i
                },
            decreases self.fields.len() - i,
        {
            let ghost rest = self.fields@.skip(i as int);
            assert(rest.drop_first() =~= self.fields@.skip(i + 1));
            if self.fields[i].0 == *key {
                return Some(&self.fields[i].1);
            }
            i = i + 1;
        }
        assert(self.fields@.skip(i as int).len() == 0);
        None
    }
}


/// The exponent of the highest power of two not above `n`.
pub open spec fn high_bit(n: nat) -> nat
    recommends
        n > 0,
{
    choose|e: nat| #[trigger] pow2(e) <= n < pow2(e + 1)
}

/// The IEEE-754 binary64 bit pattern of the unsigned integer `n`, which it
/// represents exactly when `n < 2^53`.
pub open spec fn number_bits(n: nat) -> int {
    if n == 0 {
        0
    } else {
        let e = high_bit(n);
        (1023 + e) * pow2(52) + (n - pow2(e)) * pow2((52 - e) as nat)
    }
}

/// `v` holds the string `s`.
pub open spec fn is_text(v: Value, s: Seq<char>) -> bool {
    match v.kind {
        Some(Kind::StringValue(t)) => t@ == s,
        _ => false,
    }
}

/// `v` holds the number whose bit pattern is `bits`.
pub open spec fn is_number(v: Value, bits: int) -> bool {
    match v.kind {
        Some(Kind::NumberValue(b)) => b as int == bits,
        _ => false,
    }
}

/// `v` holds a list whose items are `items`.
pub open spec fn is_list(v: Value, items: Seq<Value>) -> bool {
    match v.kind {
        Some(Kind::ListValue(l)) => l.values@ == items,
        _ => false,
    }
}

/// `v` holds the map `s`.
pub open spec fn is_struct(v: Value, s: Struct) -> bool {
    match v.kind {
        Some(Kind::StructValue(t)) => t == s,
        _ => false,
    }
}

proof fn lemma_high_bit(n: nat, e: nat)
    requires
        pow2(e) <= n < pow2(e + 1),
    ensures
        high_bit(n) == e,
{
    let h = high_bit(n);
    assert(pow2(h) <= n < pow2(h + 1));
    if h < e {
        if h + 1 < e {
            lemma_pow2_strictly_increases(h + 1, e);
        }
    } else if e < h {
        if e + 1 < h {
            lemma_pow2_strictly_increases(e + 1, h);
        }
    }
}

/// The binary64 bit pattern of `n`, exact for every `u32`.
pub fn number_bits_of(n: u32) -> (r: u64)
    ensures
        r as int == number_bits(n as nat),
{
    if n == 0 {
        return 0;
    }
    let big: u64 = 0x10000000000000;
    proof {
        lemma2_to64();
        lemma2_to64_rest();
    }
    let mut e: u64 = 0;
    let mut p: u64 = 1;
    let mut q: u64 = big;
    assert(pow2((52 - e) as nat) == pow2(52));
    assert(p * q == pow2(52));
    while p <= (n as u64) / 2
        invariant
            e <= 31,
            1 <= p <= n,
            p == pow2(e as nat),
            q == pow2((52 - e) as nat),
            p * q == pow2(52),
            pow2(52) == 0x10000000000000,
            pow2(32) == 0x100000000,
        decreases n - p,
    {
        proof {
            lemma_pow2_unfold((e + 1) as nat);
            lemma_pow2_unfold((52 - e) as nat);
            if e + 1 > 31 {
                lemma_pow2_strictly_increases(32, (e + 1) as nat);
            }
            assert(q == 2 * pow2((51 - e) as nat));
            assert((p * 2) * (q / 2) == p * q) by (nonlinear_arith)
                requires
                    q % 2 == 0,
            ;
        }
        p = p * 2;
        q = q / 2;
        e = e + 1;
    }
    proof {
        lemma_pow2_unfold((e + 1) as nat);
        lemma_high_bit(n as nat, e as nat);
        lemma_mul_strict_inequality((n - p) as int, p as int, q as int);
    }
    let frac: u64 = (n as u64 - p) * q;
    (1023 + e) * big + frac
}

/// A string value.
pub fn text_value(s: String) -> (r: Value)
    ensures
        is_text(r, s@),
{
    Value { kind: Some(Kind::StringValue(s)) }
}

/// A number value holding `n` exactly.
pub fn number_value(n: u32) -> (r: Value)
    ensures
        is_number(r, number_bits(n as nat)),
{
    Value { kind: Some(Kind::NumberValue(number_bits_of(n))) }
}

/// A list value.
pub fn list_value(items: Vec<Value>) -> (r: Value)
    ensures
        is_list(r, items@),
{
    Value { kind: Some(Kind::ListValue(ListValue { values: items })) }
}

/// A map value.
pub fn struct_value(s: Struct) -> (r: Value)
    ensures
        is_struct(r, s),
{
    Value { kind: Some(Kind::StructValue(s)) }
}

} // verus!
