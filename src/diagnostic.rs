use vstd::prelude::*;
use vstd::string::*;

use crate::error::{self_contained, Error};
use crate::status::{status_of_code, Status, CODE_OK};

verus! {

/// The runtime kind of a host value.
#[derive(Debug, Clone, Copy, PartialEq, Eq, Structural)]
pub enum ValueType {
    Undefined,
    Null,
    Boolean,
    Number,
    String,
    Symbol,
    Object,
    Function,
    External,
    BigInt,
    Unknown,
}

/// The name under which a value kind is shown.
pub open spec fn value_type_text(t: ValueType) -> Seq<char> {
    match t {
        ValueType::Undefined => "Undefined"@,
        ValueType::Null => "Null"@,
        ValueType::Boolean => "Boolean"@,
        ValueType::Number => "Number"@,
        ValueType::String => "String"@,
        ValueType::Symbol => "Symbol"@,
        ValueType::Object => "Object"@,
        ValueType::Function => "Function"@,
        ValueType::External => "External"@,
        ValueType::BigInt => "BigInt"@,
        ValueType::Unknown => "Unknown"@,
    }
}

impl ValueType {
    /// The name under which this kind is shown.
    pub fn as_str(self) -> (r: &'static str)
        ensures
            r@ == value_type_text(self),
    {
        match self {
            ValueType::Undefined => "Undefined",
            ValueType::Null => "Null",
            ValueType::Boolean => "Boolean",
            ValueType::Number => "Number",
            ValueType::String => "String",
            ValueType::Symbol => "Symbol",
            ValueType::Object => "Object",
            ValueType::Function => "Function",
            ValueType::External => "External",
            ValueType::BigInt => "BigInt",
            ValueType::Unknown => "Unknown",
        }
    }
}

/// What the host reported about a value that failed a type expectation.
#[derive(Debug)]
pub enum ValueDescription {
    /// A function, with its name (empty when anonymous).
    Function { name: String },
    /// A general object, with its JSON text.
    Object { json: String },
    /// A boolean, number or big integer, with its string coercion.
    Primitive { kind: ValueType, text: String },
    /// Any other value: only its kind is shown.
    Other(ValueType),
}

/// The diagnostic text for a described value.
pub open spec fn describe(v: ValueDescription) -> Seq<char> {
    match v {
        ValueDescription::Function { name } => "function "@ + (if name@.len() == 0 {
            "anonymous"@
        } else {
            name@
        }) + "(..) "@,
        ValueDescription::Object { json } => "Object "@ + json@,
        ValueDescription::Primitive { kind, text } => value_type_text(kind) + " "@ + text@ + " "@,
        ValueDescription::Other(kind) => value_type_text(kind),
    }
}

/// The diagnostic text for a described value.
pub fn describe_value(v: &ValueDescription) -> (r: String)
    ensures
        r@ == describe(*v),
{
    match v {
        ValueDescription::Function { name } => {
            let mut s = String::from_str("function ");
            if name.as_str().is_empty() {
                s.append("anonymous");
            } else {
                s.append(name.as_str());
            }
            s.append("(..) ");
            s
        },
        ValueDescription::Object { json } => {
            let mut s = String::from_str("Object ");
            s.append(json.as_str());
            s
        },
        ValueDescription::Primitive { kind, text } => {
            let mut s = String::from_str(kind.as_str());
            s.append(" ");
            s.append(text.as_str());
            s.append(" ");
            s
        },
        ValueDescription::Other(kind) => String::from_str(kind.as_str()),
    }
}

/// Whether a placeholder `{}` starts at position `i` of `t`.
pub open spec fn placeholder_at(t: Seq<char>, i: int) -> bool {
    0 <= i && i + 1 < t.len() && t[i] == '{' && t[i + 1] == '}'
}

/// Whether `i` is the first position of a placeholder in `t`.
pub open spec fn first_placeholder_at(t: Seq<char>, i: int) -> bool {
    placeholder_at(t, i) && forall|j: int| 0 <= j < i ==> !placeholder_at(t, j)
}

/// A message template with its first placeholder replaced by `arg`; a
/// template without a placeholder stays as it is.
pub open spec fn fill_template(t: Seq<char>, arg: Seq<char>) -> Seq<char> {
    if exists|i: int| placeholder_at(t, i) {
        let k = choose|k: int| first_placeholder_at(t, k);
        t.subrange(0, k) + arg + t.subrange(k + 2, t.len() as int)
    } else {
        t
    }
}

/// Replaces the first placeholder `{}` of `template` by `arg`.
pub fn fill(template: &str, arg: &str) -> (r: String)
    ensures
        r@ == fill_template(template@, arg@),
{
    let n = template.unicode_len();
    let mut i: usize = 0;
    while i < n
        invariant
            n == template@.len(),
            i <= n,
            forall|j: int| 0 <= j < i ==> !placeholder_at(template@, j),
        decreases n - i,
    {
        if i + 1 < n && template.get_char(i) == '{' && template.get_char(i + 1) == '}' {
            proof {
                let t = template@;
                assert(first_placeholder_at(t, i as int));
                assert(exists|k: int| placeholder_at(t, k));
                let k = choose|k: int| first_placeholder_at(t, k);
                assert(k == i) by {
                    if k < i {
                    } else if k > i {
                        assert(!placeholder_at(t, i as int));
                    }
                }
            }
            let mut s = String::from_str(template.substring_char(0, i));
            s.append(arg);
            s.append(template.substring_char(i + 2, n));
            return s;
        }
        i = i + 1;
    }
    proof {
        let t = template@;
        assert forall|k: int| !placeholder_at(t, k) by {
            if 0 <= k < i {
            }
        }
    }
    String::from_str(template)
}

/// Turns a raw status into success, or into an error of that status whose
/// message is `template` with its placeholder replaced by the description of
/// the offending value.
pub fn check_status_and_type(code: i32, template: &str, value: &ValueDescription) -> (r: Result<
    (),
    Error,
>)
    ensures
        code == CODE_OK ==> r is Ok,
        code != CODE_OK ==> r is Err && r->Err_0@ == self_contained(
            status_of_code(code),
            fill_template(template@, describe(*value)),
        ),
{
    if code == CODE_OK {
        Ok(())
    } else {
        let text = describe_value(value);
        Err(Error::new(Status::from_code(code), fill(template, text.as_str())))
    }
}

} // verus!
