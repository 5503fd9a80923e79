use vstd::prelude::*;
use vstd::string::StrSliceExecFns;
use crate::parser::export::Export;
use crate::parser::exportdesc::ExportDesc;
use crate::runtime::frame::{Frame, FrameV};
use crate::runtime::methods::spec_zeros;
use crate::runtime::{Runtime, Value};

verus! {

/// A constant of a test script: the type, and the number in decimal. For a
/// floating-point type the number is the bit pattern.
#[derive(Debug, Clone, PartialEq, Eq)]
pub enum ConstValue {
    I32 { value: String },
    I64 { value: String },
    F32 { value: String },
    F64 { value: String },
}

/// An action of a test script.
#[derive(Debug, Clone, PartialEq, Eq)]
pub enum Action {
    /// Calls the exported function `field` with the arguments.
    Invoke { module: Option<String>, field: String, args: Vec<ConstValue> },
    /// Reads the exported global `field`.
    Get { module: Option<String>, field: String },
}

/// Why an action cannot be started.
#[derive(Debug, Clone, Copy, PartialEq, Eq, Structural)]
pub enum ActionError {
    /// The action names a module other than the current one.
    NamedModule,
    /// The action reads a global.
    GetGlobal,
    /// An argument is no number of its type.
    BadConstant,
    /// Nothing is exported under the name.
    NoFunction,
    /// What is exported under the name is no function of the module.
    NotAFunction,
}

/// The digit that a character is, if it is one.
pub open spec fn spec_digit(c: char) -> Option<nat> {
    if '0' <= c <= '9' {
        Some((c as nat - '0' as nat) as nat)
    } else {
        None
    }
}

/// The number that a row of decimal digits spells; none for the empty row
/// and for a row that holds anything but digits.
pub open spec fn spec_digits(s: Seq<char>) -> Option<nat>
    decreases s.len(),
{
    if s.len() == 0 {
        None
    } else {
        match spec_digit(s.last()) {
            None => None,
            Some(d) => if s.len() == 1 {
                Some(d)
            } else {
                match spec_digits(s.drop_last()) {
                    None => None,
                    Some(v) => Some(10 * v + d),
                }
            },
        }
    }
}

/// The number that a decimal numeral spells: digits, with `+` or `-` in
/// front of them or without a sign.
pub open spec fn spec_decimal(s: Seq<char>) -> Option<int> {
    if s.len() > 0 && s[0] == '-' {
        match spec_digits(s.skip(1)) {
            Some(v) => Some(-(v as int)),
            None => None,
        }
    } else if s.len() > 0 && s[0] == '+' {
        match spec_digits(s.skip(1)) {
            Some(v) => Some(v as int),
            None => None,
        }
    } else {
        match spec_digits(s) {
            Some(v) => Some(v as int),
            None => None,
        }
    }
}

/// The bit pattern of 64 bits that a numeral stands for: the numeral may
/// spell the pattern as a signed or as an unsigned number.
pub open spec fn spec_bits64(s: Seq<char>) -> Option<u64> {
    match spec_decimal(s) {
        None => None,
        Some(v) => if 0 <= v <= u64::MAX {
            Some(v as u64)
        } else if -0x8000_0000_0000_0000 <= v < 0 {
            Some((v + 0x1_0000_0000_0000_0000) as u64)
        } else {
            None
        },
    }
}

/// The bit pattern of 32 bits that a numeral stands for.
pub open spec fn spec_bits32(s: Seq<char>) -> Option<u32> {
    match spec_decimal(s) {
        None => None,
        Some(v) => if 0 <= v <= u32::MAX {
            Some(v as u32)
        } else if -0x8000_0000 <= v < 0 {
            Some((v + 0x1_0000_0000) as u32)
        } else {
            None
        },
    }
}

/// A row with something that is no digit spells nothing.
proof fn lemma_digits_bad(s: Seq<char>, i: nat)
    requires
        i < s.len(),
        spec_digit(s[i as int]) is None,
    ensures
        spec_digits(s) is None,
    decreases s.len(),
{
    if i < s.len() - 1 {
        lemma_digits_bad(s.drop_last(), i);
    }
}

/// Reads a row of digits from place `from` on, up to `limit`. None where
/// the row is empty, holds anything but digits, or spells more.
fn parse_digits(s: &str, from: usize, limit: u128) -> (r: Option<u128>)
    requires
        from <= s@.len(),
        limit <= 0x1_0000_0000_0000_0000,
    ensures
        match spec_digits(s@.skip(from as int)) {
            Some(v) => if v <= limit {
                r == Some(v as u128)
            } else {
                r is None
            },
            None => r is None,
        },
{
    let n = s.unicode_len();
    if from >= n {
        return None;
    }
    let ghost t = s@.skip(from as int);
    let mut acc: u128 = 0;
    let mut over = false;
    let mut i: usize = from;
    while i < n
        invariant
            from <= i <= n,
            n == s@.len(),
            t == s@.skip(from as int),
            limit <= 0x1_0000_0000_0000_0000,
            i > from && !over ==> spec_digits(t.take(i - from)) == Some(acc as nat) && acc
                <= limit,
            i > from && over ==> (spec_digits(t.take(i - from)) matches Some(v) && v > limit),
            i == from ==> acc == 0 && !over,
        decreases n - i,
    {
        let c = s.get_char(i);
        proof {
            assert(t[i - from] == c);
            assert(t.take(i - from + 1).last() == c);
            assert(t.take(i - from + 1).drop_last() =~= t.take(i - from));
        }
        if !(c >= '0' && c <= '9') {
            proof {
                lemma_digits_bad(t, (i - from) as nat);
            }
            return None;
        }
        let d = (c as u32 - '0' as u32) as u128;
        if !over {
            acc = 10 * acc + d;
            if acc > limit {
                over = true;
            }
        }
        i = i + 1;
    }
    proof {
        assert(t.take(n - from) =~= t);
    }
    if over {
        None
    } else {
        Some(acc)
    }
}

/// Reads a numeral as a bit pattern of 64 bits.
pub fn parse_bits64(s: &str) -> (r: Option<u64>)
    ensures
        r == spec_bits64(s@),
{
    let n = s.unicode_len();
    if n > 0 && s.get_char(0) == '-' {
        match parse_digits(s, 1, 0x8000_0000_0000_0000) {
            Some(v) => if v == 0 {
                Some(0)
            } else {
                Some((0x1_0000_0000_0000_0000 - v) as u64)
            },
            None => None,
        }
    } else if n > 0 && s.get_char(0) == '+' {
        match parse_digits(s, 1, 0xffff_ffff_ffff_ffff) {
            Some(v) => Some(v as u64),
            None => None,
        }
    } else {
        proof {
            assert(s@.skip(0) =~= s@);
        }
        match parse_digits(s, 0, 0xffff_ffff_ffff_ffff) {
            Some(v) => Some(v as u64),
            None => None,
        }
    }
}

/// Reads a numeral as a bit pattern of 32 bits.
pub fn parse_bits32(s: &str) -> (r: Option<u32>)
    ensures
        r == spec_bits32(s@),
{
    let n = s.unicode_len();
    if n > 0 && s.get_char(0) == '-' {
        match parse_digits(s, 1, 0x8000_0000) {
            Some(v) => if v == 0 {
                Some(0)
            } else {
                Some((0x1_0000_0000 - v) as u32)
            },
            None => None,
        }
    } else if n > 0 && s.get_char(0) == '+' {
        match parse_digits(s, 1, 0xffff_ffff) {
            Some(v) => Some(v as u32),
            None => None,
        }
    } else {
        proof {
            assert(s@.skip(0) =~= s@);
        }
        match parse_digits(s, 0, 0xffff_ffff) {
            Some(v) => Some(v as u32),
            None => None,
        }
    }
}

/// The value that a constant of a test script stands for.
pub open spec fn spec_const_value(c: ConstValue) -> Option<Value> {
    match c {
        ConstValue::I32 { value } => match spec_bits32(value@) {
            Some(b) => Some(Value::I32(b as i32)),
            None => None,
        },
        ConstValue::I64 { value } => match spec_bits64(value@) {
            Some(b) => Some(Value::I64(b as i64)),
            None => None,
        },
        ConstValue::F32 { value } => match spec_bits32(value@) {
            Some(b) => Some(Value::F32(b)),
            None => None,
        },
        ConstValue::F64 { value } => match spec_bits64(value@) {
            Some(b) => Some(Value::F64(b)),
            None => None,
        },
    }
}

/// The values that the constants stand for; none where one of them is no
/// number of its type.
pub open spec fn spec_const_to_val(consts: Seq<ConstValue>) -> Option<Seq<Value>> {
    if exists|i: int| 0 <= i < consts.len() && #[trigger] spec_const_value(consts[i]) is None {
        None
    } else {
        Some(Seq::new(consts.len(), |i: int| spec_const_value(consts[i])->Some_0))
    }
}

/// Turns the constants of a test script into values.
pub fn const_to_val(consts: &Vec<ConstValue>) -> (r: Option<Vec<Value>>)
    ensures
        match spec_const_to_val(consts@) {
            Some(v) => r is Some && r->Some_0@ == v,
            None => r is None,
        },
{
    let mut out: Vec<Value> = Vec::new();
    let mut i: usize = 0;
    while i < consts.len()
        invariant
            i <= consts@.len(),
            out@.len() == i,
            forall|j: int| 0 <= j < i ==> #[trigger] spec_const_value(consts@[j]) is Some,
            forall|j: int| 0 <= j < i ==> #[trigger] out@[j] == spec_const_value(consts@[j])->Some_0,
        decreases consts@.len() - i,
    {
        let v = match &consts[i] {
            ConstValue::I32 { value } => match parse_bits32(value.as_str()) {
                Some(b) => Some(Value::I32(#[verifier::truncate] (b as i32))),
                None => None,
            },
            ConstValue::I64 { value } => match parse_bits64(value.as_str()) {
                Some(b) => Some(Value::I64(#[verifier::truncate] (b as i64))),
                None => None,
            },
            ConstValue::F32 { value } => match parse_bits32(value.as_str()) {
                Some(b) => Some(Value::F32(b)),
                None => None,
            },
            ConstValue::F64 { value } => match parse_bits64(value.as_str()) {
                Some(b) => Some(Value::F64(b)),
                None => None,
            },
        };
        match v {
            Some(v) => {
                out.push(v);
            },
            None => {
                proof {
                    assert(spec_const_value(consts@[i as int]) is None);
                }
                return None;
            },
        }
        i = i + 1;
    }
    proof {
        assert(out@ =~= Seq::new(consts@.len(), |i: int| spec_const_value(consts@[i])->Some_0));
    }
    Some(out)
}

/// A floating-point value as the integer with the same bits; any other
/// value as it is.
pub open spec fn spec_remove_float(v: Value) -> Value {
    match v {
        Value::F32(b) => Value::I32(b as i32),
        Value::F64(b) => Value::I64(b as i64),
        v => v,
    }
}

/// Replaces each floating-point value by the integer with the same bits, so
/// that two values are equal exactly when their bits are.
pub fn remove_floats(vals: Vec<Value>) -> (r: Vec<Value>)
    ensures
        r@ == vals@.map_values(|v: Value| spec_remove_float(v)),
{
    let mut out: Vec<Value> = Vec::new();
    let mut i: usize = 0;
    while i < vals.len()
        invariant
            i <= vals@.len(),
            out@ == vals@.take(i as int).map_values(|v: Value| spec_remove_float(v)),
        decreases vals@.len() - i,
    {
        let v = match vals[i] {
            Value::F32(b) => Value::I32(#[verifier::truncate] (b as i32)),
            Value::F64(b) => Value::I64(#[verifier::truncate] (b as i64)),
            v => v,
        };
        out.push(v);
        i = i + 1;
        proof {
            assert(out@ =~= vals@.take(i as int).map_values(|v: Value| spec_remove_float(v)));
        }
    }
    proof {
        assert(vals@.take(vals@.len() as int) =~= vals@);
    }
    out
}

/// True when the two rows hold the same values, floating-point numbers
/// compared by their bits.
pub fn same_values(a: &Vec<Value>, b: &Vec<Value>) -> (r: bool)
    ensures
        r == (a@.map_values(|v: Value| spec_remove_float(v)) == b@.map_values(
            |v: Value| spec_remove_float(v),
        )),
{
    let ghost fa = a@.map_values(|v: Value| spec_remove_float(v));
    let ghost fb = b@.map_values(|v: Value| spec_remove_float(v));
    if a.len() != b.len() {
        proof {
            assert(fa.len() != fb.len());
        }
        return false;
    }
    let mut i: usize = 0;
    while i < a.len()
        invariant
            i <= a@.len(),
            a@.len() == b@.len(),
            fa == a@.map_values(|v: Value| spec_remove_float(v)),
            fb == b@.map_values(|v: Value| spec_remove_float(v)),
            forall|j: int| 0 <= j < i ==> fa[j] == fb[j],
        decreases a@.len() - i,
    {
        let x = match a[i] {
            Value::F32(b) => Value::I32(#[verifier::truncate] (b as i32)),
            Value::F64(b) => Value::I64(#[verifier::truncate] (b as i64)),
            v => v,
        };
        let y = match b[i] {
            Value::F32(b) => Value::I32(#[verifier::truncate] (b as i32)),
            Value::F64(b) => Value::I64(#[verifier::truncate] (b as i64)),
            v => v,
        };
        if x != y {
            proof {
                assert(fa[i as int] != fb[i as int]);
            }
            return false;
        }
        i = i + 1;
    }
    proof {
        assert(fa =~= fb);
    }
    true
}

/// The first export with the name, if there is one.
pub open spec fn spec_find_export(exports: Seq<Export>, name: Seq<char>) -> Option<ExportDesc>
    decreases exports.len(),
{
    if exports.len() == 0 {
        None
    } else if exports[0].nm@ == name {
        Some(exports[0].d)
    } else {
        spec_find_export(exports.skip(1), name)
    }
}

/// Finds the first export with the name.
pub fn find_export(exports: &Vec<Export>, name: &String) -> (r: Option<ExportDesc>)
    ensures
        r == spec_find_export(exports@, name@),
{
    let mut i: usize = 0;
    proof {
        assert(exports@.skip(0) =~= exports@);
    }
    while i < exports.len()
        invariant
            i <= exports@.len(),
            spec_find_export(exports@, name@) == spec_find_export(exports@.skip(i as int), name@),
        decreases exports@.len() - i,
    {
        if exports[i].nm.0 == *name {
            return Some(exports[i].d);
        }
        proof {
            assert(exports@.skip(i as int).skip(1) =~= exports@.skip(i + 1));
        }
        i = i + 1;
    }
    None
}

/// The frame that an action starts, or why it cannot be started. The frame
/// is that of the function exported under the name, with the arguments as
/// its first locals and zeros as the others.
pub open spec fn spec_handle_action(rt: Runtime, action: Action) -> Result<FrameV, ActionError> {
    match action {
        Action::Get { .. } => Err(ActionError::GetGlobal),
        Action::Invoke { module, field, args } => if module is Some {
            Err(ActionError::NamedModule)
        } else {
            match spec_find_export(rt.module.exports@, field@) {
                Some(ExportDesc::Func(x)) => match rt.module.spec_defined(x.0) {
                    Err(_) => Err(ActionError::NotAFunction),
                    Ok(i) => match spec_const_to_val(args@) {
                        None => Err(ActionError::BadConstant),
                        Some(vals) => Ok(
                            FrameV {
                                func_id: x.0,
                                pc: 0,
                                stack: Seq::empty(),
                                locals: vals + spec_zeros(rt.module.funcs@[i].locals@),
                                depth_stack: Seq::empty(),
                            },
                        ),
                    },
                },
                Some(_) => Err(ActionError::NotAFunction),
                None => Err(ActionError::NoFunction),
            }
        },
    }
}

/// Starts an action: puts the frame of the function to call on the frames
/// of the module. Where the action cannot be started, the module is as it
/// was.
pub fn handle_action(rt: &mut Runtime, action: &Action) -> (r: Result<(), ActionError>)
    ensures
        final(rt).module == old(rt).module,
        final(rt).store() == old(rt).store(),
        old(rt).wf() ==> final(rt).wf(),
        match spec_handle_action(*old(rt), *action) {
            Ok(f) => r is Ok && final(rt).frames() == old(rt).frames().push(f),
            Err(e) => r == Err::<(), ActionError>(e) && final(rt).frames() == old(rt).frames(),
        },
{
    match action {
        Action::Get { .. } => Err(ActionError::GetGlobal),
        Action::Invoke { module, field, args } => {
            if module.is_some() {
                return Err(ActionError::NamedModule);
            }
            let x = match find_export(&rt.module.exports, field) {
                Some(ExportDesc::Func(x)) => x.0,
                Some(_) => {
                    return Err(ActionError::NotAFunction);
                },
                None => {
                    return Err(ActionError::NoFunction);
                },
            };
            let i = match rt.module.defined(x) {
                Ok(i) => i,
                Err(_) => {
                    return Err(ActionError::NotAFunction);
                },
            };
            let vals = match const_to_val(args) {
                Some(v) => v,
                None => {
                    return Err(ActionError::BadConstant);
                },
            };
            let locals = crate::runtime::methods::make_locals(vals, &rt.module.funcs[i].locals);
            let f = Frame::new(x, locals);
            rt.stack.push(f);
            proof {
                assert(rt.frames() =~= old(rt).frames().push(f@));
                assert(rt.store().tables =~= old(rt).store().tables);
                assert(rt.store().datas =~= old(rt).store().datas);
            }
            Ok(())
        },
    }
}

} // verus!
