//! The `kv` interface: a key-value store that the host keeps for a component.
use vstd::prelude::*;
use crate::bindings::abi::{
    copy_run, decode_slices, mem_run, read_slice, records_dealloc, run_in, spec_read_slice,
    spec_read_slices, spec_records_dealloc, Dealloc, Slice,
};
use crate::bindings::lift::{all_utf8, lift_string, lift_strings};
use vstd::utf8::{decode_utf8, valid_utf8};

verus! {

/// The outcome of a store operation.
#[derive(Debug, Clone, Copy, PartialEq, Eq, Structural)]
pub enum OpResult {
    /// It succeeded.
    Success,
    /// It failed.
    Error,
}

impl OpResult {
    /// The outcome's name.
    pub fn name(&self) -> (r: &'static str)
        ensures
            r@ == (match self {
                OpResult::Success => "success"@,
                OpResult::Error => "error"@,
            }),
    {
        match self {
            OpResult::Success => "success",
            OpResult::Error => "error",
        }
    }

    /// The outcome's message: the interface gives none, so it is empty.
    pub fn message(&self) -> (r: &'static str)
        ensures
            r@ == ""@,
    {
        match self {
            OpResult::Success => "",
            OpResult::Error => "",
        }
    }

    /// The outcome with code `c`: 0 success, 1 error.
    pub open spec fn spec_from_code(c: i32) -> OpResult {
        if c == 0 {
            OpResult::Success
        } else {
            OpResult::Error
        }
    }

    /// The outcome with code `c`; what `set` returns is such a code. The code
    /// is 0 or 1: the interface defines no other, and the bindings stop on any
    /// other.
    pub fn from_code(c: i32) -> (r: OpResult)
        requires
            0 <= c <= 1,
        ensures
            r == OpResult::spec_from_code(c),
    {
        if c == 0 {
            OpResult::Success
        } else {
            OpResult::Error
        }
    }
}

/// The size of the return area of `get` and `list-values`.
pub const KV_AREA_SIZE: usize = 12;

/// The outcome of `get` or `list-values` as the host stores it: tag 0 and a
/// slice at 4 (the value, or the list of values), or tag 1 and the failed
/// outcome's code at 4.
pub open spec fn spec_read_kv_result(b: Seq<u8>) -> Result<Slice, OpResult> {
    if b[0] == 0 {
        Ok(spec_read_slice(b, 4))
    } else {
        Err(OpResult::spec_from_code(b[4] as i32))
    }
}

/// The return area holds an outcome that the interface defines: tag 0, or tag
/// 1 with a code of 0 or 1. The bindings stop on any other.
pub open spec fn valid_kv_area(b: Seq<u8>) -> bool {
    &&& b[0] <= 1
    &&& b[0] == 1 ==> b[4] <= 1
}

/// The outcome of `get` or `list-values`, read from its return area.
pub fn read_kv_result(area: &[u8]) -> (r: Result<Slice, OpResult>)
    requires
        area@.len() >= 12,
        valid_kv_area(area@),
    ensures
        r == spec_read_kv_result(area@),
{
    if area[0] == 0 {
        Ok(read_slice(area, 4))
    } else {
        Err(OpResult::from_code(area[4] as i32))
    }
}

/// `get` answers a text that lies in memory and is valid UTF-8.
pub open spec fn valid_get(area: Seq<u8>, mem: Seq<u8>) -> bool {
    &&& valid_kv_area(area)
    &&& area[0] == 0 ==> run_in(mem, spec_read_slice(area, 4)) && valid_utf8(
        mem_run(mem, spec_read_slice(area, 4)),
    )
}

/// What `get` returns, from its return area and the linear memory: the value's
/// text, or the failed outcome.
pub open spec fn spec_get(area: Seq<u8>, mem: Seq<u8>) -> Result<Seq<char>, OpResult> {
    match spec_read_kv_result(area) {
        Ok(s) => Ok(decode_utf8(mem_run(mem, s))),
        Err(o) => Err(o),
    }
}

/// A text result as a character sequence.
pub open spec fn text_result(r: Result<String, OpResult>) -> Result<Seq<char>, OpResult> {
    match r {
        Ok(s) => Ok(s@),
        Err(o) => Err(o),
    }
}

/// What `get` returns, read from its return area and the linear memory.
pub fn lift_get(area: &[u8], mem: &[u8]) -> (r: Result<String, OpResult>)
    requires
        area@.len() >= 12,
        valid_get(area@, mem@),
    ensures
        text_result(r) == spec_get(area@, mem@),
{
    match read_kv_result(area) {
        Ok(s) => Ok(lift_string(copy_run(mem, s))),
        Err(o) => Err(o),
    }
}

/// The string slices of the list that `list-values` answers.
pub open spec fn listed_slices(area: Seq<u8>, mem: Seq<u8>) -> Seq<Slice> {
    let l = spec_read_slice(area, 4);
    spec_read_slices(mem, l.ptr as int, l.len as nat)
}

/// `list-values` answers a list that lies in memory, of texts that lie in
/// memory and are valid UTF-8.
pub open spec fn valid_list(area: Seq<u8>, mem: Seq<u8>) -> bool {
    &&& valid_kv_area(area)
    &&& area[0] == 0 ==> {
        let l = spec_read_slice(area, 4);
        &&& l.ptr + 8 * l.len <= mem.len()
        &&& forall|i: int|
            0 <= i < l.len ==> run_in(mem, #[trigger] listed_slices(area, mem)[i]) && valid_utf8(
                mem_run(mem, listed_slices(area, mem)[i]),
            )
    }
}

/// What `list-values` returns, read from its return area and the linear
/// memory: the texts of the list, in order, with the block of the list itself,
/// which is given back once read (8 bytes per entry, alignment 4); or the
/// failed outcome.
pub fn lift_list_values(area: &[u8], mem: &[u8]) -> (r: Result<(Vec<String>, Dealloc), OpResult>)
    requires
        area@.len() >= 12,
        valid_list(area@, mem@),
    ensures
        area@[0] == 1 ==> r == Err::<(Vec<String>, Dealloc), OpResult>(
            OpResult::spec_from_code(area@[4] as i32),
        ),
        area@[0] == 0 ==> (r matches Ok((texts, block)) && block == spec_records_dealloc(
            spec_read_slice(area@, 4),
            8,
        ) && texts@.len() == listed_slices(area@, mem@).len() && forall|i: int|
            0 <= i < texts@.len() ==> #[trigger] texts@[i]@ == decode_utf8(
                mem_run(mem@, listed_slices(area@, mem@)[i]),
            )),
{
    match read_kv_result(area) {
        Err(o) => Err(o),
        Ok(l) => {
            let n = l.len as usize;
            let slices = decode_slices(mem, l.ptr as usize, n);
            let mut runs: Vec<Vec<u8>> = Vec::new();
            let mut i: usize = 0;
            while i < n
                invariant
                    i <= n,
                    n == l.len,
                    l == spec_read_slice(area@, 4),
                    area@[0] == 0,
                    valid_list(area@, mem@),
                    slices@ == listed_slices(area@, mem@),
                    runs@.len() == i,
                    forall|k: int| 0 <= k < i ==> #[trigger] runs@[k]@ == mem_run(mem@, slices@[k]),
                decreases n - i,
            {
                assert(run_in(mem@, listed_slices(area@, mem@)[i as int]));
                runs.push(copy_run(mem, slices[i]));
                i = i + 1;
            }
            assert(all_utf8(runs@)) by {
                assert forall|k: int| 0 <= k < runs@.len() implies valid_utf8(#[trigger] runs@[k]@) by {
                    assert(valid_utf8(mem_run(mem@, listed_slices(area@, mem@)[k])));
                }
            }
            let texts = lift_strings(runs.as_slice());
            Ok((texts, records_dealloc(l, 8)))
        },
    }
}

} // verus!
