//! The subscription form: how a request body is read, and what is answered.

use crate::routes::{Response, BAD_REQUEST, INTERNAL_SERVER_ERROR, OK};
use vstd::prelude::*;
use vstd::string::StringExecFns;

verus! {

/// `serde_urlencoded::de::Error`, the reason why a body could not be decoded.
#[verifier::external_type_specification]
#[verifier::external_body]
pub struct ExDecodeError(serde_urlencoded::de::Error);

/// A decoded body: the pairs of name and value, in the order of the body.
pub type Pairs = Seq<(Seq<char>, Seq<char>)>;

/// A decoded body as it is held in memory.
pub type PairList = Vec<(String, String)>;

/// The pairs that `serde_urlencoded::from_bytes` decodes a body into, where
/// it decodes it: the body is split at `&`, each part at its first `=`, and
/// both halves are percent-decoded, with `+` for a space.
pub uninterp spec fn form_pairs(body: Seq<u8>) -> Option<Pairs>;

/// `serde_urlencoded::from_bytes`, asked for a list of pairs of strings. The
/// contract says that the outcome is [`form_pairs`] of the body, and that a
/// body without any byte decodes into no pair at all.
#[verifier::external_body]
fn decode(body: &[u8]) -> (res: Result<PairList, serde_urlencoded::de::Error>)
    ensures
        res matches Ok(pairs) ==> form_pairs(body@) == Some(pairs.deep_view()),
        res is Err ==> form_pairs(body@) is None,
        body@.len() == 0 ==> res is Ok,
        res matches Ok(pairs) ==> (body@.len() == 0 ==> pairs@.len() == 0),
{
    serde_urlencoded::from_bytes::<PairList>(body)
}

/// The two fields of the form.
#[derive(Clone, Copy, Debug, PartialEq, Eq, Structural)]
pub enum FormField {
    Email,
    Name,
}

impl FormField {
    /// The name of the field in a request body.
    pub open spec fn spec_name(self) -> Seq<char> {
        match self {
            FormField::Email => "email"@,
            FormField::Name => "name"@,
        }
    }

    /// The name of the field in a request body.
    pub fn name(self) -> (name: &'static str)
        ensures
            name@ == self.spec_name(),
    {
        match self {
            FormField::Email => "email",
            FormField::Name => "name",
        }
    }
}

/// Why a request body is no subscription.
#[derive(Clone, Copy, Debug, PartialEq, Eq, Structural)]
pub enum FormError {
    /// The body could not be decoded into pairs.
    Malformed,
    /// The field is given more than once.
    Duplicate(FormField),
    /// The field is not given.
    Missing(FormField),
}

/// A subscription as it was sent.
#[derive(Debug)]
pub struct FormData {
    pub email: String,
    pub name: String,
}

/// [`FormData`] as plain text.
pub struct FormDataView {
    pub email: Seq<char>,
    pub name: Seq<char>,
}

impl View for FormData {
    type V = FormDataView;

    open spec fn view(&self) -> FormDataView {
        FormDataView { email: self.email@, name: self.name@ }
    }
}

/// Whether no pair gives the field.
pub open spec fn absent(pairs: Pairs, field: FormField) -> bool {
    forall|i: int| 0 <= i < pairs.len() ==> (#[trigger] pairs[i]).0 != field.spec_name()
}

/// Whether two pairs or more give the field.
pub open spec fn repeated(pairs: Pairs, field: FormField) -> bool {
    exists|i: int, j: int|
        0 <= i < j < pairs.len() && (#[trigger] pairs[i]).0 == field.spec_name() && (
        #[trigger] pairs[j]).0 == field.spec_name()
}

/// Whether exactly one pair gives the field, with this value.
pub open spec fn given_once(pairs: Pairs, field: FormField, value: Seq<char>) -> bool {
    exists|i: int|
        0 <= i < pairs.len() && #[trigger] pairs[i] == (field.spec_name(), value) && forall|
            j: int,
        |
            0 <= j < pairs.len() && (#[trigger] pairs[j]).0 == field.spec_name() ==> j == i
}

/// Why the pairs are no subscription, if they are none: a field given twice
/// comes before a field not given, and the address before the name. Pairs
/// under other names count for nothing.
pub open spec fn form_error(pairs: Pairs) -> Option<FormError> {
    if repeated(pairs, FormField::Email) {
        Some(FormError::Duplicate(FormField::Email))
    } else if repeated(pairs, FormField::Name) {
        Some(FormError::Duplicate(FormField::Name))
    } else if absent(pairs, FormField::Email) {
        Some(FormError::Missing(FormField::Email))
    } else if absent(pairs, FormField::Name) {
        Some(FormError::Missing(FormField::Name))
    } else {
        None
    }
}

/// Whether `res` is what the pairs are read as: the error that
/// [`form_error`] names, or else the subscription with the one address and
/// the one name that the pairs give.
pub open spec fn reads_as(pairs: Pairs, res: Result<FormData, FormError>) -> bool {
    match form_error(pairs) {
        Some(error) => res == Err::<FormData, FormError>(error),
        None => res matches Ok(form) && given_once(pairs, FormField::Email, form.email@)
            && given_once(pairs, FormField::Name, form.name@),
    }
}

/// The two names are different texts.
proof fn names_differ()
    ensures
        FormField::Email.spec_name() != FormField::Name.spec_name(),
{
    reveal_strlit("email");
    reveal_strlit("name");
    assert("email"@.len() != "name"@.len());
}

/// What the search for one field has seen of the first `upto` pairs: where the
/// field was first given, and whether it was given again.
spec fn seen(pairs: Pairs, field: FormField, upto: int, at: Option<usize>, again: bool) -> bool {
    &&& at is None ==> !again && forall|j: int|
        0 <= j < upto ==> (#[trigger] pairs[j]).0 != field.spec_name()
    &&& at matches Some(k) ==> {
        &&& k < upto
        &&& pairs[k as int].0 == field.spec_name()
        &&& forall|j: int| 0 <= j < k ==> (#[trigger] pairs[j]).0 != field.spec_name()
        &&& !again ==> forall|j: int|
            k < j < upto ==> (#[trigger] pairs[j]).0 != field.spec_name()
        &&& again ==> exists|j: int|
            k < j < upto && (#[trigger] pairs[j]).0 == field.spec_name()
    }
}

impl FormData {
    /// Reads a subscription out of the pairs of a decoded body.
    ///
    /// Each of the two fields has to be given exactly once; pairs under other
    /// names are passed over. A field given twice is reported before a field
    /// not given, and the address before the name.
    pub fn from_pairs(pairs: PairList) -> (res: Result<FormData, FormError>)
        ensures
            reads_as(pairs.deep_view(), res),
    {
        let ghost view = pairs.deep_view();
        let email_name = String::from_str(FormField::Email.name());
        let name_name = String::from_str(FormField::Name.name());
        let mut email_at: Option<usize> = None;
        let mut email_again = false;
        let mut name_at: Option<usize> = None;
        let mut name_again = false;
        let mut i: usize = 0;
        proof {
            names_differ();
        }
        while i < pairs.len()
            invariant
                0 <= i <= pairs.len(),
                view == pairs.deep_view(),
                email_name@ == FormField::Email.spec_name(),
                name_name@ == FormField::Name.spec_name(),
                FormField::Email.spec_name() != FormField::Name.spec_name(),
                seen(view, FormField::Email, i as int, email_at, email_again),
                seen(view, FormField::Name, i as int, name_at, name_again),
            decreases pairs.len() - i,
        {
            assert(view[i as int].0 == pairs[i as int].0@);
            if pairs[i].0 == email_name {
                match email_at {
                    None => {
                        email_at = Some(i);
                    },
                    Some(_) => {
                        email_again = true;
                    },
                }
            } else if pairs[i].0 == name_name {
                match name_at {
                    None => {
                        name_at = Some(i);
                    },
                    Some(_) => {
                        name_again = true;
                    },
                }
            }
            i = i + 1;
        }
        if email_again {
            return Err(FormError::Duplicate(FormField::Email));
        }
        if name_again {
            return Err(FormError::Duplicate(FormField::Name));
        }
        match (email_at, name_at) {
            (None, _) => Err(FormError::Missing(FormField::Email)),
            (Some(_), None) => Err(FormError::Missing(FormField::Name)),
            (Some(e), Some(n)) => {
                let form = FormData { email: pairs[e].1.clone(), name: pairs[n].1.clone() };
                Ok(form)
            },
        }
    }

    /// Reads a subscription out of a request body.
    ///
    /// A body that cannot be decoded is `Malformed`; a decoded one is read as
    /// [`FormData::from_pairs`] reads its pairs. A body without any byte lacks
    /// the address.
    pub fn parse(body: &[u8]) -> (res: Result<FormData, FormError>)
        ensures
            match form_pairs(body@) {
                None => res == Err::<FormData, FormError>(FormError::Malformed),
                Some(pairs) => reads_as(pairs, res),
            },
            body@.len() == 0 ==> res == Err::<FormData, FormError>(
                FormError::Missing(FormField::Email),
            ),
    {
        match decode(body) {
            Err(_) => Err(FormError::Malformed),
            Ok(pairs) => FormData::from_pairs(pairs),
        }
    }
}

/// What is to be done with a request to subscribe.
#[derive(Debug)]
pub enum Subscribe {
    /// The body is a subscription: store it, and answer as [`subscribed`]
    /// says.
    Store(FormData),
    /// The body is none: answer at once.
    Reject(Response),
}

/// Looks at the body of a request to subscribe.
///
/// A body that decodes into pairs which give the address once and the name
/// once is to be stored, as exactly that one subscription. Any other body is
/// answered at once with status 400 and an empty body, and nothing is stored;
/// so is a body without any byte.
pub fn subscribe(body: &[u8]) -> (next: Subscribe)
    ensures
        next is Store <==> (form_pairs(body@) matches Some(pairs) && form_error(pairs) is None),
        next matches Subscribe::Store(form) ==> reads_as(
            form_pairs(body@)->0,
            Ok::<FormData, FormError>(form),
        ),
        next matches Subscribe::Reject(response) ==> response.status == 400 && response.body@
            == Seq::<u8>::empty(),
        form_pairs(body@) matches Some(pairs) && (absent(pairs, FormField::Email) || absent(
            pairs,
            FormField::Name,
        )) ==> next is Reject,
        body@.len() == 0 ==> next is Reject,
{
    match FormData::parse(body) {
        Ok(form) => Subscribe::Store(form),
        Err(_) => Subscribe::Reject(Response::empty(BAD_REQUEST)),
    }
}

/// The answer to a request whose subscription was handed to the database:
/// status 200 where it was stored, status 500 where it was not, and an empty
/// body either way.
pub fn subscribed(stored: bool) -> (response: Response)
    ensures
        response.status == (if stored {
            200u16
        } else {
            500u16
        }),
        response.body@ == Seq::<u8>::empty(),
{
    if stored {
        Response::empty(OK)
    } else {
        Response::empty(INTERNAL_SERVER_ERROR)
    }
}

} // verus!
