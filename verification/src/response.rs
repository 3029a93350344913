//! The kinds of diagrams a response can carry and the mask that selects them.

use vstd::prelude::*;

verus! {

/// A kind of rendered diagram that a client can ask for.
#[derive(Debug, Clone, Copy, Hash, PartialEq, Eq, Structural)]
pub enum ResponseFieldMask {
    Svg,
    Png,
}

/// The textual name of a field kind, as it appears in a field mask.
pub open spec fn field_mask_name(mask: ResponseFieldMask) -> Seq<char> {
    match mask {
        ResponseFieldMask::Svg => seq!['s', 'v', 'g'],
        ResponseFieldMask::Png => seq!['p', 'n', 'g'],
    }
}

/// The kinds are named `svg` and `png` in a field mask and on the command
/// line.
pub proof fn lemma_field_mask_names()
    ensures
        field_mask_name(ResponseFieldMask::Svg) == "svg"@,
        field_mask_name(ResponseFieldMask::Png) == "png"@,
{
    reveal_strlit("svg");
    reveal_strlit("png");
}

/// What parsing a field-mask path gives: the field kind whose name it is, or
/// the rejected text.
pub open spec fn parse_field_mask(value: Seq<char>) -> Result<ResponseFieldMask, Seq<char>> {
    if value == field_mask_name(ResponseFieldMask::Svg) {
        Ok(ResponseFieldMask::Svg)
    } else if value == field_mask_name(ResponseFieldMask::Png) {
        Ok(ResponseFieldMask::Png)
    } else {
        Err(value)
    }
}

/// The message of a rejected field-mask path.
pub open spec fn invalid_mask_message(value: Seq<char>) -> Seq<char> {
    "invalid response filed mask: "@ + value
}

/// A field-mask path that names no field kind.
#[derive(Debug, Clone, PartialEq, Eq)]
pub struct InvalidFieldMask {
    pub value: String,
}

impl InvalidFieldMask {
    /// The error's text.
    pub fn message(&self) -> (r: String)
        ensures
            r@ == invalid_mask_message(self.value@),
    {
        let prefix = String::from_str("invalid response filed mask: ");
        prefix.concat(self.value.as_str())
    }
}

impl ResponseFieldMask {
    /// The name of the field kind (`svg` or `png`).
    pub fn to_string(&self) -> (r: String)
        ensures
            r@ == field_mask_name(*self),
    {
        match self {
            ResponseFieldMask::Svg => {
                let s = String::from_str("svg");
                proof {
                    reveal_strlit("svg");
                    assert("svg"@ =~= field_mask_name(ResponseFieldMask::Svg));
                }
                s
            },
            ResponseFieldMask::Png => {
                let s = String::from_str("png");
                proof {
                    reveal_strlit("png");
                    assert("png"@ =~= field_mask_name(ResponseFieldMask::Png));
                }
                s
            },
        }
    }

    /// Parses a field-mask path: `svg` and `png` name the two field kinds,
    /// any other text is refused.
    pub fn try_from(value: String) -> (r: Result<ResponseFieldMask, InvalidFieldMask>)
        ensures
            match r {
                Ok(m) => parse_field_mask(value@) == Ok::<ResponseFieldMask, Seq<char>>(m),
                Err(e) => parse_field_mask(value@) == Err::<ResponseFieldMask, Seq<char>>(
                    value@,
                ) && e.value@ == value@,
            },
    {
        let svg = String::from_str("svg");
        let png = String::from_str("png");
        proof {
            reveal_strlit("svg");
            reveal_strlit("png");
            assert("svg"@ =~= field_mask_name(ResponseFieldMask::Svg));
            assert("png"@ =~= field_mask_name(ResponseFieldMask::Png));
        }
        if value == svg {
            Ok(ResponseFieldMask::Svg)
        } else if value == png {
            Ok(ResponseFieldMask::Png)
        } else {
            Err(InvalidFieldMask { value })
        }
    }
}


/// Which field kinds a request asks for. An empty mask asks for every kind.
#[derive(Debug, Clone, PartialEq, Eq)]
pub struct OutputMask(pub Vec<ResponseFieldMask>);

impl View for OutputMask {
    type V = Set<ResponseFieldMask>;

    open spec fn view(&self) -> Set<ResponseFieldMask> {
        self.0@.to_set()
    }
}

/// Whether a mask, given as the set of kinds it names, selects a field kind:
/// an empty mask selects every kind.
pub open spec fn mask_selects(mask: Set<ResponseFieldMask>, key: ResponseFieldMask) -> bool {
    mask.is_empty() || mask.contains(key)
}

impl OutputMask {
    /// Whether the field kind `key` has to be present in the response.
    pub fn contains(&self, key: &ResponseFieldMask) -> (r: bool)
        ensures
            r == mask_selects(self@, *key),
    {
        proof {
            self.0@.lemma_cardinality_of_empty_set_is_0();
        }
        if self.0.len() == 0 {
            return true;
        }
        let mut i: usize = 0;
        while i < self.0.len()
            invariant
                0 <= i <= self.0.len(),
                forall|j: int| 0 <= j < i ==> self.0@[j] != *key,
            decreases self.0.len() - i,
        {
            if self.0[i] == *key {
                assert(self@.contains(*key));
                return true;
            }
            i = i + 1;
        }
        assert(self@.len() != 0);
        assert(!self@.contains(*key));
        false
    }
}

impl Default for OutputMask {
    fn default() -> (r: OutputMask)
        ensures
            r@ == Set::<ResponseFieldMask>::empty(),
            r.0@.len() == 0,
    {
        let r = OutputMask(Vec::new());
        assert(r@ =~= Set::<ResponseFieldMask>::empty());
        r
    }
}

/// The rendered diagrams of a response; a kind that was not asked for or
/// not rendered is absent.
#[derive(Debug, Clone, Hash, PartialEq, Eq)]
pub struct Response {
    pub svg: Option<Vec<u8>>,
    pub png: Option<Vec<u8>>,
}

/// Parsing the name of a field kind gives that kind back.
pub proof fn lemma_field_mask_name_round_trip(mask: ResponseFieldMask)
    ensures
        parse_field_mask(field_mask_name(mask)) == Ok::<ResponseFieldMask, Seq<char>>(mask),
{
    assert(field_mask_name(ResponseFieldMask::Svg) != field_mask_name(ResponseFieldMask::Png)) by {
        assert(field_mask_name(ResponseFieldMask::Svg)[0] != field_mask_name(
            ResponseFieldMask::Png,
        )[0]);
    }
}

/// An empty mask selects every field kind, and a mask that names a kind
/// selects it.
pub proof fn lemma_mask_selection(mask: Set<ResponseFieldMask>, key: ResponseFieldMask)
    ensures
        mask.is_empty() ==> mask_selects(mask, key),
        mask.contains(key) ==> mask_selects(mask, key),
        !mask.is_empty() && !mask.contains(key) ==> !mask_selects(mask, key),
{
}

/// A field-mask path is accepted exactly when it is `svg` or `png`, and then
/// names the kind of that name; any other path is refused as itself.
pub proof fn lemma_parse_field_mask(value: Seq<char>)
    ensures
        parse_field_mask(value) is Ok <==> (value == "svg"@ || value == "png"@),
        parse_field_mask(value) matches Ok(kind) ==> field_mask_name(kind) == value,
        parse_field_mask(value) matches Err(v) ==> v == value,
{
    lemma_field_mask_names();
}

/// A refused field-mask path is reported with its own text.
pub proof fn lemma_invalid_mask_message(value: Seq<char>)
    ensures
        invalid_mask_message(value) == "invalid response filed mask: "@ + value,
        invalid_mask_message(value).subrange(
            invalid_mask_message(value).len() - value.len(),
            invalid_mask_message(value).len() as int,
        ) == value,
{
    assert(invalid_mask_message(value).subrange(
        invalid_mask_message(value).len() - value.len(),
        invalid_mask_message(value).len() as int,
    ) =~= value);
}

} // verus!
