use vstd::prelude::*;

use crate::text::str_eq;

verus! {

broadcast use vstd::string::group_string_axioms;

/// The errors of a request that failed validation: each field once, in the
/// order in which the fields were first named, with its messages in the
/// order in which they were given.
pub type FieldErrors = Seq<(Seq<char>, Seq<Seq<char>>)>;

/// A common error type that can be used throughout the API.
///
/// It says only what a caller may learn: the four kinds that the API makes
/// a promise about, and two kinds of internal failure that are answered
/// alike.
#[derive(Debug)]
pub enum Error {
    /// The caller did not authenticate: no credential, or one that was not
    /// accepted. Which of the checks failed is not told.
    Unauthorized,
    /// The caller is known but may not do this.
    Forbidden,
    /// What the request names does not exist.
    NotFound,
    /// The request was understood and refused, with the reasons by field.
    UnprocessableEntity { errors: Vec<(String, Vec<String>)> },
    /// The store failed. `constraint` names the integrity rule that the
    /// statement broke, where the store reported one.
    Database { constraint: Option<String> },
    /// Any other failure inside the server.
    Internal,
}

/// An `Error` as plain mathematical values.
pub enum ErrorView {
    Unauthorized,
    Forbidden,
    NotFound,
    UnprocessableEntity { errors: FieldErrors },
    Database { constraint: Option<Seq<char>> },
    Internal,
}

impl View for Error {
    type V = ErrorView;

    open spec fn view(&self) -> ErrorView {
        match self {
            Error::Unauthorized => ErrorView::Unauthorized,
            Error::Forbidden => ErrorView::Forbidden,
            Error::NotFound => ErrorView::NotFound,
            Error::UnprocessableEntity { errors } => ErrorView::UnprocessableEntity {
                errors: errors.deep_view(),
            },
            Error::Database { constraint } => ErrorView::Database {
                constraint: match constraint {
                    Some(name) => Some(name@),
                    None => None,
                },
            },
            Error::Internal => ErrorView::Internal,
        }
    }
}

/// Whether some entry is for `field`.
pub open spec fn has_field(entries: FieldErrors, field: Seq<char>) -> bool {
    exists|i: int| 0 <= i < entries.len() && (#[trigger] entries[i]).0 == field
}

/// No field has two entries.
pub open spec fn distinct_fields(entries: FieldErrors) -> bool {
    forall|i: int, j: int|
        0 <= i < j < entries.len() ==> (#[trigger] entries[i]).0 != (#[trigger] entries[j]).0
}

/// The entries with one more message for `field`: at the end of the list of
/// that field where it has one, else as a new entry after all others.
pub open spec fn add_message(
    entries: FieldErrors,
    field: Seq<char>,
    message: Seq<char>,
) -> FieldErrors {
    if has_field(entries, field) {
        Seq::new(
            entries.len(),
            |i: int|
                if entries[i].0 == field {
                    (field, entries[i].1.push(message))
                } else {
                    entries[i]
                },
        )
    } else {
        entries.push((field, seq![message]))
    }
}

/// The messages of `pairs` gathered by field.
pub open spec fn grouped(pairs: Seq<(Seq<char>, Seq<char>)>) -> FieldErrors
    decreases pairs.len(),
{
    if pairs.len() == 0 {
        Seq::empty()
    } else {
        add_message(grouped(pairs.drop_last()), pairs.last().0, pairs.last().1)
    }
}

/// Gathering by field never gives a field two entries.
pub proof fn lemma_grouped_distinct(pairs: Seq<(Seq<char>, Seq<char>)>)
    ensures
        distinct_fields(grouped(pairs)),
    decreases pairs.len(),
{
    if pairs.len() > 0 {
        lemma_grouped_distinct(pairs.drop_last());
        let before = grouped(pairs.drop_last());
        let after = grouped(pairs);
        let field = pairs.last().0;
        if has_field(before, field) {
            assert forall|i: int, j: int| 0 <= i < j < after.len() implies (#[trigger] after[i]).0
                != (#[trigger] after[j]).0 by {
                assert(after[i].0 == before[i].0);
                assert(after[j].0 == before[j].0);
            }
        } else {
            assert forall|i: int, j: int| 0 <= i < j < after.len() implies (#[trigger] after[i]).0
                != (#[trigger] after[j]).0 by {
                if j < before.len() {
                    assert(after[i] == before[i]);
                    assert(after[j] == before[j]);
                } else {
                    assert(after[i] == before[i]);
                    assert(after[j].0 == field);
                }
            }
        }
    }
}

/// The index of the entry for `field`, if there is one.
fn find_field(entries: &Vec<(String, Vec<String>)>, field: &str) -> (found: Option<usize>)
    ensures
        match found {
            Some(i) => i < entries.len() && entries.deep_view()[i as int].0 == field@,
            None => !has_field(entries.deep_view(), field@),
        },
{
    let mut i: usize = 0;
    while i < entries.len()
        invariant
            i <= entries.len(),
            forall|j: int| 0 <= j < i ==> (#[trigger] entries.deep_view()[j]).0 != field@,
        decreases entries.len() - i,
    {
        if str_eq(entries[i].0.as_str(), field) {
            return Some(i);
        }
        i = i + 1;
    }
    None
}

impl Error {
    /// Convenient constructor for `Error::UnprocessableEntity`.
    ///
    /// Multiple messages for the same field are gathered under it, in the
    /// order given.
    pub fn unprocessable_entity(errors: &[(&str, &str)]) -> (e: Error)
        ensures
            e@ == (ErrorView::UnprocessableEntity { errors: grouped(errors.deep_view()) }),
            distinct_fields(grouped(errors.deep_view())),
    {
        let ghost pairs = errors.deep_view();
        let mut entries: Vec<(String, Vec<String>)> = Vec::new();
        let mut n: usize = 0;
        proof {
            assert(pairs.take(0) =~= Seq::empty());
            assert(entries.deep_view() =~= grouped(pairs.take(0)));
        }
        while n < errors.len()
            invariant
                pairs == errors.deep_view(),
                n <= errors.len(),
                entries.deep_view() == grouped(pairs.take(n as int)),
            decreases errors.len() - n,
        {
            let (field, message) = errors[n];
            let ghost before = entries.deep_view();
            proof {
                assert(pairs.take(n + 1).drop_last() =~= pairs.take(n as int));
                assert(pairs.take(n + 1).last() == (field@, message@));
                lemma_grouped_distinct(pairs.take(n as int));
            }
            match find_field(&entries, field) {
                Some(i) => {
                    let (name, mut messages) = entries.remove(i);
                    messages.push(message.to_owned());
                    entries.insert(i, (name, messages));
                    proof {
                        assert(has_field(before, field@));
                        assert(entries.deep_view() =~= add_message(before, field@, message@)) by {
                            let after = add_message(before, field@, message@);
                            assert(entries.deep_view().len() == after.len());
                            assert forall|j: int| 0 <= j < after.len() implies entries.deep_view()[j]
                                == after[j] by {
                                if j == i as int {
                                    assert(entries@[j].1.deep_view() =~= before[j].1.push(
                                        message@,
                                    ));
                                } else {
                                    assert(before[j].0 != before[i as int].0);
                                }
                            }
                        }
                    }
                },
                None => {
                    let mut messages: Vec<String> = Vec::new();
                    messages.push(message.to_owned());
                    entries.push((field.to_owned(), messages));
                    proof {
                        assert(messages.deep_view() =~= seq![message@]);
                        assert(entries.deep_view() =~= before.push((field@, seq![message@])));
                    }
                },
            }
            n = n + 1;
        }
        proof {
            assert(pairs.take(n as int) =~= pairs);
            lemma_grouped_distinct(pairs);
        }
        Error::UnprocessableEntity { errors: entries }
    }

    /// The HTTP status that answers this error.
    pub open spec fn spec_status_code(&self) -> u16 {
        match self {
            Error::Unauthorized => 401,
            Error::Forbidden => 403,
            Error::NotFound => 404,
            Error::UnprocessableEntity { .. } => 422,
            Error::Database { .. } => 500,
            Error::Internal => 500,
        }
    }

    /// The HTTP status that answers this error. Every internal failure is
    /// answered with 500 and nothing more.
    #[verifier::when_used_as_spec(spec_status_code)]
    pub fn status_code(&self) -> (code: u16)
        ensures
            code == self.spec_status_code(),
    {
        match self {
            Error::Unauthorized => 401,
            Error::Forbidden => 403,
            Error::NotFound => 404,
            Error::UnprocessableEntity { .. } => 422,
            Error::Database { .. } => 500,
            Error::Internal => 500,
        }
    }

    /// Whether this is the store's report that the constraint `name` was
    /// broken.
    pub open spec fn spec_broke(&self, name: Seq<char>) -> bool {
        self@ == (ErrorView::Database { constraint: Some(name) })
    }

    /// Whether this is the store's report that the constraint `name` was
    /// broken.
    pub fn broke(&self, name: &str) -> (b: bool)
        ensures
            b == self.spec_broke(name@),
    {
        match self {
            Error::Database { constraint: Some(broken) } => str_eq(broken.as_str(), name),
            _ => false,
        }
    }
}

/// The error of a request that was refused for one reason.
pub open spec fn one_field_error(field: Seq<char>, message: Seq<char>) -> ErrorView {
    ErrorView::UnprocessableEntity { errors: seq![(field, seq![message])] }
}

/// A request refused for one reason: `message`, about `field`.
pub fn field_error(field: &str, message: &str) -> (e: Error)
    ensures
        e@ == one_field_error(field@, message@),
{
    let mut pairs: Vec<(&str, &str)> = Vec::new();
    pairs.push((field, message));
    let reasons = pairs.as_slice();
    proof {
        let given = reasons.deep_view();
        assert(given =~= seq![(field@, message@)]);
        assert(given.drop_last() =~= Seq::empty());
        assert(grouped(given.drop_last()) =~= Seq::empty());
        assert(!has_field(grouped(given.drop_last()), field@));
        assert(grouped(given) =~= seq![(field@, seq![message@])]);
    }
    Error::unprocessable_entity(reasons)
}

/// What `on_constraint` hands back.
pub open spec fn on_constraint_spec<T>(result: Result<T, Error>, name: Seq<char>, error: Error) -> Result<
    T,
    Error,
> {
    match result {
        Err(e) if e.spec_broke(name) => Err(error),
        _ => result,
    }
}

/// If `result` is the store's report that the constraint `name` was broken,
/// replace it by `error`; hand every other result back as it is.
///
/// Constraints on tables save a query that would only ask whether the
/// statement may run, and hold even where two requests race. A statement
/// that breaks one is answered here with the error that the caller should
/// see.
pub fn on_constraint<T>(result: Result<T, Error>, name: &str, error: Error) -> (r: Result<T, Error>)
    ensures
        r == on_constraint_spec(result, name@, error),
{
    match result {
        Err(e) => {
            if e.broke(name) {
                Err(error)
            } else {
                Err(e)
            }
        },
        Ok(v) => Ok(v),
    }
}

} // verus!
