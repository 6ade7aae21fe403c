use vstd::prelude::*;
use crate::runtime::Runtime;
use crate::ERR;
use vstd::string::StringSliceAdditionalSpecFns;

verus! {

broadcast use vstd::string::group_string_axioms;

/// The UTF-16 code units of one character.
pub open spec fn utf16_of_char(c: char) -> Seq<u16> {
    let v = c as u32;
    if v < 0x10000 {
        seq![v as u16]
    } else {
        seq![(0xD800 + (v - 0x10000) / 0x400) as u16, (0xDC00 + (v - 0x10000) % 0x400) as u16]
    }
}

/// The UTF-16 encoding of a character sequence.
pub open spec fn utf16_of(s: Seq<char>) -> Seq<u16>
    decreases s.len(),
{
    if s.len() == 0 {
        seq![]
    } else {
        utf16_of(s.drop_last()) + utf16_of_char(s.last())
    }
}

/// Encodes script text as the UTF-16 code units that the engine reads.
pub fn encode_script(script: &str) -> (r: Vec<u16>)
    ensures
        r@ == utf16_of(script@),
{
    let mut units: Vec<u16> = Vec::new();
    for c in it: script.chars()
        invariant
            it.seq() == script@,
            units@ == utf16_of(script@.take(it.index() as int)),
    {
        let ghost done = script@.take(it.index() as int);
        assert(script@.take(it.index() + 1).drop_last() == done);
        let v = c as u32;
        if v < 0x10000 {
            units.push(v as u16);
        } else {
            let w = v - 0x10000;
            units.push((0xD800 + w / 0x400) as u16);
            units.push((0xDC00 + w % 0x400) as u16);
        }
    }
    assert(script@.take(script@.len() as int) == script@);
    units
}

/// The first position in `b` that holds a zero byte, if there is one.
pub open spec fn first_nul(b: Seq<u8>) -> Option<int> {
    if exists|i: int| 0 <= i < b.len() && b[i] == 0 {
        Some(choose|i: int| 0 <= i < b.len() && b[i] == 0 && forall|j: int| 0 <= j < i ==> b[j] != 0)
    } else {
        None
    }
}

/// Why the arguments of an evaluation could not be handed to the engine.
#[derive(Clone, Copy, Debug, PartialEq, Eq, Structural)]
pub enum MarshalError {
    /// The source name holds a zero byte at this position.
    InteriorNul { position: usize },
    /// The encoded script has more code units than the engine's length type holds.
    ScriptTooLong,
}

/// The engine reported that the evaluation failed; the details come through
/// the diagnostic callback.
#[derive(Clone, Copy, Debug, PartialEq, Eq, Structural)]
pub struct EvaluationFailed;

/// The arguments of one native evaluate call.
pub struct EvaluationRequest {
    pub context: usize,
    pub global: usize,
    /// The script as UTF-16. The engine takes no null buffer, so an empty
    /// script goes to it as a non-null buffer of length zero.
    pub script: Vec<u16>,
    pub script_len: u32,
    /// The source name, terminated by one zero byte.
    pub filename: Vec<u8>,
    pub line: u32,
}

/// Turns a source name into a zero-terminated byte string, refusing a name
/// that holds a zero byte.
pub fn source_name_bytes(name: &str) -> (r: Result<Vec<u8>, MarshalError>)
    ensures
        match first_nul(name.spec_bytes()) {
            Some(p) => r == Err::<Vec<u8>, MarshalError>(MarshalError::InteriorNul { position: p as usize }),
            None => r is Ok && r->Ok_0@ == name.spec_bytes().push(0u8),
        },
{
    let bytes = name.as_bytes();
    let mut out: Vec<u8> = Vec::new();
    let mut i: usize = 0;
    while i < bytes.len()
        invariant
            bytes@ == name.spec_bytes(),
            i <= bytes@.len(),
            out@ == bytes@.take(i as int),
            forall|j: int| 0 <= j < i ==> bytes@[j] != 0,
        decreases bytes@.len() - i,
    {
        if bytes[i] == 0 {
            let ghost b = bytes@;
            assert(first_nul(b) == Some(i as int)) by {
                let k = choose|k: int| 0 <= k < b.len() && b[k] == 0 && forall|j: int| 0 <= j < k ==> b[j] != 0;
                assert(0 <= i < b.len() && b[i as int] == 0 && forall|j: int| 0 <= j < i ==> b[j] != 0);
                if k < i {
                } else if k > i {
                    assert(b[i as int] != 0);
                }
            }
            return Err(MarshalError::InteriorNul { position: i });
        }
        out.push(bytes[i]);
        i = i + 1;
        assert(out@ == bytes@.take(i as int));
    }
    assert(bytes@.take(i as int) == bytes@);
    out.push(0);
    Ok(out)
}

/// A zero byte at `i` means there is a first one, at or before `i`.
proof fn lemma_first_nul_at_or_before(b: Seq<u8>, i: int)
    requires
        0 <= i < b.len(),
        b[i] == 0,
    ensures
        first_nul(b) matches Some(p) && 0 <= p <= i && b[p] == 0 && forall|j: int| 0 <= j < p ==> b[j] != 0,
    decreases i,
{
    if exists|j: int| 0 <= j < i && b[j] == 0 {
        let j = choose|j: int| 0 <= j < i && b[j] == 0;
        lemma_first_nul_at_or_before(b, j);
    } else {
        assert(0 <= i < b.len() && b[i] == 0 && forall|j: int| 0 <= j < i ==> b[j] != 0);
    }
    let p = first_nul(b)->0;
    if p > i {
        assert(b[i] != 0);
    }
}

/// Why a script and a source name cannot be handed to the engine, if they
/// cannot: a zero byte in the name comes first, then the script's length.
pub open spec fn marshal_error(script: Seq<char>, name: Seq<u8>) -> Option<MarshalError> {
    match first_nul(name) {
        Some(p) => Some(MarshalError::InteriorNul { position: p as usize }),
        None => if utf16_of(script).len() > u32::MAX {
            Some(MarshalError::ScriptTooLong)
        } else {
            None
        },
    }
}

/// A source name with a zero byte fails that one call at marshaling, at the
/// first zero byte; the facade is only read, so a later call with a name
/// free of zero bytes and a script of a length the engine takes succeeds.
pub proof fn lemma_bad_name_then_good(script: Seq<char>, bad: Seq<u8>, good: Seq<u8>, i: int)
    requires
        0 <= i < bad.len(),
        bad[i] == 0,
        forall|j: int| 0 <= j < good.len() ==> good[j] != 0,
        utf16_of(script).len() <= u32::MAX,
    ensures
        marshal_error(script, bad) matches Some(MarshalError::InteriorNul { position }) && position <= i,
        marshal_error(script, good) is None,
{
    lemma_first_nul_at_or_before(bad, i);
}

impl Runtime {
    /// Prepares the native evaluate call for `script` against `global` on
    /// this facade's context. The facade itself is left as it was.
    pub fn prepare_evaluation(
        &self,
        global: usize,
        script: &str,
        filename: &str,
        line_num: usize,
    ) -> (r: Result<EvaluationRequest, MarshalError>)
        requires
            line_num <= u32::MAX,
        ensures
            r is Err <==> marshal_error(script@, filename.spec_bytes()) is Some,
            r is Err ==> r->Err_0 == marshal_error(script@, filename.spec_bytes())->0,
            r matches Ok(q) ==> {
                &&& q.context == self.cx.ptr
                &&& q.global == global
                &&& q.script@ == utf16_of(script@)
                &&& q.script_len == utf16_of(script@).len()
                &&& q.filename@ == filename.spec_bytes().push(0u8)
                &&& q.line == line_num
            },
    {
        let name = source_name_bytes(filename)?;
        let units = encode_script(script);
        if units.len() > 0xFFFF_FFFF {
            return Err(MarshalError::ScriptTooLong);
        }
        let script_len = units.len() as u32;
        Ok(EvaluationRequest {
            context: self.cx.ptr,
            global,
            script: units,
            script_len,
            filename: name,
            line: line_num as u32,
        })
    }
}

/// Interprets the status that the native evaluate call returned.
pub fn evaluation_result(status: i32) -> (r: Result<(), EvaluationFailed>)
    ensures
        r is Err <==> status == ERR,
{
    if status == ERR {
        Err(EvaluationFailed)
    } else {
        Ok(())
    }
}

} // verus!
