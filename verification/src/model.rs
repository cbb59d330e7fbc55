//! The closed set of chat models and their wire-format identifiers.

use vstd::prelude::*;

verus! {

/// The models a client can be configured with. Each variant corresponds to
/// exactly one fixed wire-format identifier understood by the remote service.
#[derive(Clone, Copy, PartialEq, Eq, Structural, Debug)]
pub enum Model {
    Gpt35Turbo,
    Gpt35Turbo16k,
    Gpt35TurboInstruct,
    Gpt35Turbo1106,
    Gpt41106Preview,
    Gpt4,
    Gpt432k,
    Gpt4Instruct,
    Gpt432k0613,
}

/// The wire-format identifier of a model, as a total function on variants.
pub open spec fn wire_format(m: Model) -> Seq<char> {
    match m {
        Model::Gpt35Turbo => "gpt-3.5-turbo"@,
        Model::Gpt35Turbo16k => "gpt-3.5-turbo-16k"@,
        Model::Gpt35TurboInstruct => "gpt-3.5-turbo-instruct"@,
        Model::Gpt35Turbo1106 => "gpt-3.5-turbo-1106"@,
        Model::Gpt41106Preview => "gpt-4-1106-preview"@,
        Model::Gpt4 => "gpt-4"@,
        Model::Gpt432k => "gpt-4-32k"@,
        Model::Gpt4Instruct => "gpt-4-instruct"@,
        Model::Gpt432k0613 => "gpt-4-32k-0613"@,
    }
}

impl Model {
    /// Formats the model into its wire-format string.
    pub fn format(&self) -> (r: String)
        ensures
            r@ == wire_format(*self),
    {
        match self {
            Model::Gpt35Turbo => "gpt-3.5-turbo".to_owned(),
            Model::Gpt35Turbo16k => "gpt-3.5-turbo-16k".to_owned(),
            Model::Gpt35TurboInstruct => "gpt-3.5-turbo-instruct".to_owned(),
            Model::Gpt35Turbo1106 => "gpt-3.5-turbo-1106".to_owned(),
            Model::Gpt41106Preview => "gpt-4-1106-preview".to_owned(),
            Model::Gpt4 => "gpt-4".to_owned(),
            Model::Gpt432k => "gpt-4-32k".to_owned(),
            Model::Gpt4Instruct => "gpt-4-instruct".to_owned(),
            Model::Gpt432k0613 => "gpt-4-32k-0613".to_owned(),
        }
    }
}

/// A decimal digit.
pub open spec fn digit(c: char) -> bool {
    '0' <= c && c <= '9'
}

/// A lower-case letter.
pub open spec fn lower(c: char) -> bool {
    'a' <= c && c <= 'z'
}

/// The shape every wire-format identifier has: "gpt-", then a non-empty run
/// of digits and dots, then zero or more hyphen-separated non-empty groups
/// of lower-case letters and digits.
pub open spec fn wire_format_shape(s: Seq<char>) -> bool {
    &&& s.len() >= 5
    &&& s.subrange(0, 4) == "gpt-"@
    &&& (digit(s[4]) || s[4] == '.')
    &&& s[s.len() - 1] != '-'
    &&& forall|i: int|
        4 <= i < s.len() ==> lower(#[trigger] s[i]) || digit(s[i]) || s[i] == '.' || s[i] == '-'
    &&& forall|i: int| 4 <= i < s.len() - 1 && #[trigger] s[i] == '-' ==> s[i + 1] != '-'
    &&& forall|i: int, j: int|
        4 <= i < j < s.len() && #[trigger] s[i] == '-' ==> #[trigger] s[j] != '.'
    &&& forall|i: int|
        4 <= i < s.len() && lower(#[trigger] s[i]) ==> exists|j: int| 4 <= j < i && s[j] == '-'
}

/// Formatting is injective: distinct models never share a wire-format string.
/// Every wire-format string has the common shape, with a digit after "gpt-".
pub proof fn lemma_wire_format_distinct(a: Model, b: Model)
    ensures
        wire_format_shape(wire_format(a)),
        digit(wire_format(a)[4]),
        a != b ==> wire_format(a) != wire_format(b),
{
    reveal_strlit("gpt-");
    reveal_strlit("gpt-3.5-turbo");
    reveal_strlit("gpt-3.5-turbo-16k");
    reveal_strlit("gpt-3.5-turbo-instruct");
    reveal_strlit("gpt-3.5-turbo-1106");
    reveal_strlit("gpt-4-1106-preview");
    reveal_strlit("gpt-4");
    reveal_strlit("gpt-4-32k");
    reveal_strlit("gpt-4-instruct");
    reveal_strlit("gpt-4-32k-0613");
    assert(wire_format(a).subrange(0, 4) =~= "gpt-"@);
    assert(wire_format(Model::Gpt35Turbo)[7] == '-');
    assert(wire_format(Model::Gpt35Turbo16k)[7] == '-');
    assert(wire_format(Model::Gpt35TurboInstruct)[7] == '-');
    assert(wire_format(Model::Gpt35Turbo1106)[7] == '-');
    assert(wire_format(Model::Gpt41106Preview)[5] == '-');
    assert(wire_format(Model::Gpt432k)[5] == '-');
    assert(wire_format(Model::Gpt4Instruct)[5] == '-');
    assert(wire_format(Model::Gpt432k0613)[5] == '-');
    assert(wire_format(Model::Gpt35Turbo).len() == 13);
    assert(wire_format(Model::Gpt35Turbo16k).len() == 17);
    assert(wire_format(Model::Gpt35TurboInstruct).len() == 22);
    assert(wire_format(Model::Gpt35Turbo1106).len() == 18);
    assert(wire_format(Model::Gpt41106Preview).len() == 18);
    assert(wire_format(Model::Gpt4).len() == 5);
    assert(wire_format(Model::Gpt432k).len() == 9);
    assert(wire_format(Model::Gpt4Instruct).len() == 14);
    assert(wire_format(Model::Gpt432k0613).len() == 14);
    assert(wire_format(Model::Gpt35Turbo1106)[4] == '3');
    assert(wire_format(Model::Gpt41106Preview)[4] == '4');
    assert(wire_format(Model::Gpt4Instruct)[6] == 'i');
    assert(wire_format(Model::Gpt432k0613)[6] == '3');
}

} // verus!
