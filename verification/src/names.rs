//! Which names a skill and a memory file may have.

use crate::text::{same_text, to_chars};
use std::path::{Component, Path};
use vstd::prelude::*;

verus! {

/// The kinds of component that a path is made of.
#[derive(Clone, Copy, Debug, PartialEq, Eq, Structural)]
pub enum ComponentKind {
    /// A drive or share prefix, as Windows has them.
    Prefix,
    /// The root directory.
    RootDir,
    /// A reference to the current directory, `.`.
    CurDir,
    /// A reference to the parent directory, `..`.
    ParentDir,
    /// An ordinary name.
    Normal,
}

/// What is said of a name that may not name a skill.
pub open spec fn invalid_skill_name() -> Seq<char> {
    "invalid skill name"@
}

/// What is said of a name that names no memory file.
pub open spec fn invalid_memory_name() -> Seq<char> {
    "invalid memory name"@
}

/// Whether a path made of `kinds` is one ordinary name and nothing else.
pub open spec fn is_single_name(kinds: Seq<ComponentKind>) -> bool {
    kinds == seq![ComponentKind::Normal]
}

/// Whether `c` is a decimal digit.
pub open spec fn is_digit(c: char) -> bool {
    '0' <= c <= '9'
}

/// Whether `name` is the name of a dated memory file: `YYYY-MM-DD.md`,
/// each letter a decimal digit.
pub open spec fn is_date_name(name: Seq<char>) -> bool {
    &&& name.len() == 13
    &&& is_digit(name[0])
    &&& is_digit(name[1])
    &&& is_digit(name[2])
    &&& is_digit(name[3])
    &&& name[4] == '-'
    &&& is_digit(name[5])
    &&& is_digit(name[6])
    &&& name[7] == '-'
    &&& is_digit(name[8])
    &&& is_digit(name[9])
    &&& name[10] == '.'
    &&& name[11] == 'm'
    &&& name[12] == 'd'
}

/// Whether `name` is the name of a memory file: the long-term memory or a
/// dated one.
pub open spec fn is_memory_name(name: Seq<char>) -> bool {
    name == "MEMORY.md"@ || is_date_name(name)
}

/// `std::path::Path::components`: the kinds of the components into which
/// the platform's rules split `path`, in order. How a text is split
/// depends on the platform, so nothing is claimed of the result.
#[verifier::external_body]
fn path_components(path: &str) -> (kinds: Vec<ComponentKind>) {
    let mut kinds = Vec::new();
    for component in Path::new(path).components() {
        kinds.push(
            match component {
                Component::Prefix(_) => ComponentKind::Prefix,
                Component::RootDir => ComponentKind::RootDir,
                Component::CurDir => ComponentKind::CurDir,
                Component::ParentDir => ComponentKind::ParentDir,
                Component::Normal(_) => ComponentKind::Normal,
            },
        );
    }
    kinds
}

/// Whether a name whose path is made of `kinds` may name a skill: it may
/// where it is one ordinary name, so that it stays inside the directory
/// of the skills.
pub fn skill_name_verdict(kinds: &Vec<ComponentKind>) -> (r: Result<(), String>)
    ensures
        r is Ok <==> is_single_name(kinds@),
        r matches Err(e) ==> e@ == invalid_skill_name(),
{
    if kinds.len() == 1 && kinds[0] == ComponentKind::Normal {
        assert(kinds@ =~= seq![ComponentKind::Normal]);
        Ok(())
    } else {
        Err("invalid skill name".to_owned())
    }
}

/// Whether `name` may name a skill. The name is handed, as it is, to the
/// platform's path parsing, and the answer is that of `skill_name_verdict`
/// on the components that come back. Which names pass therefore differs
/// between platforms, and the contract says only what holds wherever the
/// function runs: a name that is refused is refused with the one error.
pub fn validate_skill_name(name: &str) -> (r: Result<(), String>)
    ensures
        r matches Err(e) ==> e@ == invalid_skill_name(),
{
    let kinds = path_components(name);
    skill_name_verdict(&kinds)
}

fn digit_at(chars: &Vec<char>, i: usize) -> (r: bool)
    requires
        i < chars.len(),
    ensures
        r == is_digit(chars@[i as int]),
{
    let c = chars[i];
    '0' <= c && c <= '9'
}

/// Whether `name` is the name of a dated memory file.
pub fn is_date_memory_name(name: &str) -> (r: bool)
    ensures
        r == is_date_name(name@),
{
    let chars = to_chars(name);
    if chars.len() != 13 {
        return false;
    }
    digit_at(&chars, 0) && digit_at(&chars, 1) && digit_at(&chars, 2) && digit_at(&chars, 3)
        && chars[4] == '-' && digit_at(&chars, 5) && digit_at(&chars, 6) && chars[7] == '-'
        && digit_at(&chars, 8) && digit_at(&chars, 9) && chars[10] == '.' && chars[11] == 'm'
        && chars[12] == 'd'
}

/// Whether `name` may name a memory file.
pub fn validate_memory_name(name: &str) -> (r: Result<(), String>)
    ensures
        r is Ok <==> is_memory_name(name@),
        r matches Err(e) ==> e@ == invalid_memory_name(),
{
    if same_text(name, "MEMORY.md") {
        return Ok(());
    }
    if is_date_memory_name(name) {
        return Ok(());
    }
    Err("invalid memory name".to_owned())
}

/// What is said where the long-term memory is to be deleted.
pub open spec fn cannot_delete_memory() -> Seq<char> {
    "cannot delete MEMORY.md"@
}

/// Whether the memory file `name` may be deleted: the dated ones may, the
/// long-term memory may not.
pub fn validate_memory_deletion(name: &str) -> (r: Result<(), String>)
    ensures
        r is Ok <==> is_memory_name(name@) && name@ != "MEMORY.md"@,
        r matches Err(e) ==> e@ == (if is_memory_name(name@) {
            cannot_delete_memory()
        } else {
            invalid_memory_name()
        }),
{
    match validate_memory_name(name) {
        Err(e) => Err(e),
        Ok(_) => {
            if same_text(name, "MEMORY.md") {
                Err("cannot delete MEMORY.md".to_owned())
            } else {
                Ok(())
            }
        },
    }
}

} // verus!
