//! Field errors of a request body, and the validator that gathers them.
use vstd::prelude::*;
use vstd::string::*;

verus! {

/// One complaint about one field of a request body.
#[derive(Clone, Debug)]
pub struct FieldError {
    pub field: String,
    pub message: String,
}

impl View for FieldError {
    type V = (Seq<char>, Seq<char>);

    open spec fn view(&self) -> (Seq<char>, Seq<char>) {
        (self.field@, self.message@)
    }
}

/// The complaints about a request body; answered with status 422.
#[derive(Clone, Debug)]
pub struct Errors {
    pub errors: Vec<FieldError>,
}

/// The pairs (field, message) of a list of field errors.
pub open spec fn pairs_of(errors: Seq<FieldError>) -> Seq<(Seq<char>, Seq<char>)> {
    errors.map_values(|e: FieldError| e@)
}

impl View for Errors {
    type V = Seq<(Seq<char>, Seq<char>)>;

    open spec fn view(&self) -> Seq<(Seq<char>, Seq<char>)> {
        pairs_of(self.errors@)
    }
}

/// The message recorded for a required field that is absent.
pub open spec fn blank_message() -> Seq<char> {
    "can't be blank"@
}

/// What reading one required field adds to the gathered errors.
pub open spec fn blank_error(field: Seq<char>, present: bool) -> Seq<(Seq<char>, Seq<char>)> {
    if present {
        Seq::empty()
    } else {
        seq![(field, blank_message())]
    }
}

/// The text an optional field stands for: its value, or the empty text when it is absent.
pub open spec fn text_or_empty(field: Option<String>) -> Seq<char> {
    match field {
        Some(s) => s@,
        None => Seq::empty(),
    }
}

/// Law: a present field reads as its whole value, unchanged at any length; an absent one as
/// the empty text.
pub proof fn lemma_present_field_unchanged(s: String)
    ensures
        text_or_empty(Some(s)) == s@,
        text_or_empty(None) == Seq::<char>::empty(),
{
}

impl Errors {
    /// An error list with one pair.
    pub fn single(field: &str, message: &str) -> (res: Errors)
        ensures
            res@ == seq![(field@, message@)],
    {
        let mut errors: Vec<FieldError> = Vec::new();
        errors.push(FieldError { field: String::from_str(field), message: String::from_str(message) });
        let res = Errors { errors };
        assert(res@ =~= seq![(field@, message@)]);
        res
    }
}

/// Gathers the errors met while reading the fields of a request body.
pub struct FieldValidator {
    errors: Vec<FieldError>,
}

impl View for FieldValidator {
    type V = Seq<(Seq<char>, Seq<char>)>;

    closed spec fn view(&self) -> Seq<(Seq<char>, Seq<char>)> {
        pairs_of(self.errors@)
    }
}

impl Default for FieldValidator {
    fn default() -> (res: FieldValidator)
        ensures
            res@ == Seq::<(Seq<char>, Seq<char>)>::empty(),
    {
        let res = FieldValidator { errors: Vec::new() };
        assert(res@ =~= Seq::<(Seq<char>, Seq<char>)>::empty());
        res
    }
}

impl FieldValidator {
    /// A validator that starts from the errors the body's own rules found.
    pub fn validate(rule_errors: Vec<FieldError>) -> (res: FieldValidator)
        ensures
            res@ == pairs_of(rule_errors@),
    {
        FieldValidator { errors: rule_errors }
    }

    /// Reads a required field: its value when present; when absent, the empty text,
    /// and the error "can't be blank" is recorded for it.
    pub fn extract(&mut self, field_name: &str, field: Option<String>) -> (value: String)
        ensures
            value@ == text_or_empty(field),
            field matches Some(v) ==> value@ == v@,
            field is None ==> value@.len() == 0,
            final(self)@ == old(self)@ + blank_error(field_name@, field is Some),
    {
        match field {
            Some(v) => {
                assert(old(self)@ + blank_error(field_name@, true) =~= old(self)@);
                v
            },
            None => {
                let ghost before = self.errors@;
                self.errors.push(
                    FieldError {
                        field: String::from_str(field_name),
                        message: String::from_str("can't be blank"),
                    },
                );
                assert(pairs_of(self.errors@) =~= pairs_of(before) + blank_error(
                    field_name@,
                    false,
                ));
                String::new()
            },
        }
    }

    /// Succeeds when no error was gathered, and otherwise fails with all of them.
    pub fn check(self) -> (res: Result<(), Errors>)
        ensures
            res is Ok <==> self@.len() == 0,
            res matches Err(e) ==> e@ == self@,
    {
        if self.errors.len() == 0 {
            Ok(())
        } else {
            Err(Errors { errors: self.errors })
        }
    }
}

} // verus!
