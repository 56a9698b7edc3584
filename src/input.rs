use vstd::prelude::*;
use vstd::string::StringExecFns;

verus! {

/// How a shader input is exposed to the host.
#[derive(Clone, Copy, Debug, PartialEq, Eq, Structural)]
pub enum InputVariant {
    Float,
    Int,
    IntList,
    Bool,
    Color,
    Point2d,
    Image,
    /// Recognised but not exposed for mutation: audio, events and raw bytes.
    Unsupported,
}

/// The kind of a shader input binding, as the compiled shader declares it.
#[derive(Clone, Copy, Debug, PartialEq, Eq, Structural)]
pub enum InputKind {
    Float,
    Int,
    /// An integer chosen from a list of named options.
    IntList,
    Point,
    Bool,
    Color,
    Image,
    Audio,
    AudioFft,
    Event,
    RawBytes,
}

pub open spec fn spec_variant(k: InputKind) -> InputVariant {
    match k {
        InputKind::Float => InputVariant::Float,
        InputKind::Int => InputVariant::Int,
        InputKind::IntList => InputVariant::IntList,
        InputKind::Point => InputVariant::Point2d,
        InputKind::Bool => InputVariant::Bool,
        InputKind::Color => InputVariant::Color,
        InputKind::Image => InputVariant::Image,
        _ => InputVariant::Unsupported,
    }
}

/// Whether a supplied value of kind `from` overwrites the current value of a
/// binding of kind `to`: same scalar kind, with plain and listed integers alike.
pub open spec fn spec_update_applies(from: InputKind, to: InputKind) -> bool {
    match from {
        InputKind::Float => to == InputKind::Float,
        InputKind::Int | InputKind::IntList => to == InputKind::Int || to == InputKind::IntList,
        InputKind::Point => to == InputKind::Point,
        InputKind::Bool => to == InputKind::Bool,
        InputKind::Color => to == InputKind::Color,
        _ => false,
    }
}

impl InputKind {
    pub fn variant(&self) -> (r: InputVariant)
        ensures
            r == spec_variant(*self),
    {
        match self {
            InputKind::Float => InputVariant::Float,
            InputKind::Int => InputVariant::Int,
            InputKind::IntList => InputVariant::IntList,
            InputKind::Point => InputVariant::Point2d,
            InputKind::Bool => InputVariant::Bool,
            InputKind::Color => InputVariant::Color,
            InputKind::Image => InputVariant::Image,
                _ => InputVariant::Unsupported,
        }
    }
}

pub fn update_applies(from: InputKind, to: InputKind) -> (r: bool)
    ensures
        r == spec_update_applies(from, to),
{
    match from {
        InputKind::Float => to == InputKind::Float,
        InputKind::Int | InputKind::IntList => to == InputKind::Int || to == InputKind::IntList,
        InputKind::Point => to == InputKind::Point,
        InputKind::Bool => to == InputKind::Bool,
        InputKind::Color => to == InputKind::Color,
        _ => false,
    }
}

/// The value of option number `index` of a list, counting from 1; `None` when
/// there is no such option.
pub fn option_value(values: &Vec<i32>, index: u32) -> (r: Option<i32>)
    ensures
        r is Some <==> 1 <= index <= values@.len(),
        r matches Some(v) ==> v == values@[index - 1],
{
    if index == 0 || index as usize > values.len() {
        None
    } else {
        Some(values[(index - 1) as usize])
    }
}

/// The shader's encoding of a boolean input: 1 for true, 0 for false.
pub fn bool_flag(b: bool) -> (r: u32)
    ensures
        r == if b { 1u32 } else { 0u32 },
{
    if b {
        1
    } else {
        0
    }
}

pub open spec fn names_view(v: Seq<String>) -> Seq<Seq<char>> {
    v.map_values(|s: String| s@)
}

/// The names separated by `|`.
pub open spec fn spec_join(s: Seq<Seq<char>>) -> Seq<char>
    decreases s.len(),
{
    if s.len() == 0 {
        Seq::empty()
    } else if s.len() == 1 {
        s[0]
    } else {
        spec_join(s.drop_last()) + seq!['|'] + s.last()
    }
}

/// The option names of a listed integer, as one `|`-separated string.
pub fn join_names(names: &Vec<String>) -> (r: String)
    ensures
        r@ == spec_join(names_view(names@)),
{
    let mut out = String::new();
    let mut i: usize = 0;
    let bar = "|";
    proof {
        reveal_strlit("|");
        assert(names_view(names@).take(0) =~= Seq::<Seq<char>>::empty());
    }
    while i < names.len()
        invariant
            i <= names@.len(),
            bar@ == seq!['|'],
            out@ == spec_join(names_view(names@).take(i as int)),
        decreases names@.len() - i,
    {
        let ghost prev = names_view(names@).take(i as int);
        let ghost next = names_view(names@).take(i as int + 1);
        assert(next.drop_last() =~= prev);
        if i > 0 {
            out.append(bar);
        }
        out.append(names[i].as_str());
        proof {
            if i == 0 {
                assert(out@ =~= next[0]);
            } else {
                assert(out@ =~= spec_join(prev) + seq!['|'] + next.last());
            }
        }
        i = i + 1;
    }
    assert(names_view(names@).take(names@.len() as int) =~= names_view(names@));
    out
}

} // verus!
