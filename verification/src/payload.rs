//! Action payloads: the closed set of actions a transaction can carry,
//! either a module bundle to publish or a call of an on-chain function.
use vstd::prelude::*;

verus! {

use vstd::utf8::is_ascii_chars;

/// Specification-level payload: the same shape over character sequences.
pub enum PayloadView {
    ModuleBundle { bytecode_hex: Seq<char> },
    ScriptFunction { function: Seq<char>, type_arguments: Seq<Seq<char>>, arguments: Seq<Seq<char>> },
}

/// What a transaction does. A module bundle carries the module's bytecode as
/// a hex string; a function call carries the fully qualified function name,
/// its type arguments, and its already-encoded ordered arguments.
pub enum ActionPayload {
    ModuleBundle { bytecode_hex: String },
    ScriptFunction { function: String, type_arguments: Vec<String>, arguments: Vec<String> },
}

/// The views of a sequence of strings.
pub open spec fn string_views(v: Seq<String>) -> Seq<Seq<char>> {
    v.map(|_i: int, s: String| s@)
}

pub open spec fn all_ascii_strs(l: Seq<Seq<char>>) -> bool {
    forall|i: int| 0 <= i < l.len() ==> is_ascii_chars(#[trigger] l[i])
}

impl View for ActionPayload {
    type V = PayloadView;

    open spec fn view(&self) -> PayloadView {
        match self {
            ActionPayload::ModuleBundle { bytecode_hex } => PayloadView::ModuleBundle {
                bytecode_hex: bytecode_hex@,
            },
            ActionPayload::ScriptFunction {
                function,
                type_arguments,
                arguments,
            } => PayloadView::ScriptFunction {
                function: function@,
                type_arguments: string_views(type_arguments@),
                arguments: string_views(arguments@),
            },
        }
    }
}

impl PayloadView {
    /// Every piece of text in the payload is ASCII, which is what the
    /// canonical wire encoding can carry.
    pub open spec fn well_formed(self) -> bool {
        match self {
            PayloadView::ModuleBundle { bytecode_hex } => is_ascii_chars(bytecode_hex),
            PayloadView::ScriptFunction {
                function,
                type_arguments,
                arguments,
            } => is_ascii_chars(function) && all_ascii_strs(type_arguments) && all_ascii_strs(
                arguments,
            ),
        }
    }
}

fn all_strings_ascii(v: &Vec<String>) -> (r: bool)
    ensures
        r == all_ascii_strs(string_views(v@)),
{
    let mut i: usize = 0;
    while i < v.len()
        invariant
            0 <= i <= v@.len(),
            forall|k: int| 0 <= k < i ==> is_ascii_chars(#[trigger] string_views(v@)[k]),
        decreases v@.len() - i,
    {
        if !v[i].as_str().is_ascii() {
            assert(!is_ascii_chars(string_views(v@)[i as int]));
            return false;
        }
        i = i + 1;
    }
    true
}

/// Checks the ASCII well-formedness of a payload, with an exact contract.
pub fn payload_is_ascii(p: &ActionPayload) -> (r: bool)
    ensures
        r == p@.well_formed(),
{
    match p {
        ActionPayload::ModuleBundle { bytecode_hex } => bytecode_hex.as_str().is_ascii(),
        ActionPayload::ScriptFunction { function, type_arguments, arguments } => {
            if !function.as_str().is_ascii() {
                return false;
            }
            if !all_strings_ascii(type_arguments) {
                return false;
            }
            all_strings_ascii(arguments)
        },
    }
}

} // verus!
