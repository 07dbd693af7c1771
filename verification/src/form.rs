//! The sign-up form and the rules by which a payload is accepted as one.

use crate::urlencoded::{decode_pairs, urlencoded_pairs};
use vstd::prelude::*;
use vstd::string::*;

verus! {

/// The decoded pairs of a payload, as specifications see them.
pub type Pairs = Seq<(Seq<char>, Seq<char>)>;

/// A field of the sign-up form.
#[derive(Clone, Copy, Debug, PartialEq, Eq, Structural)]
pub enum Field {
    Email,
    Name,
}

impl Field {
    /// The key under which the field travels in a payload.
    pub open spec fn key(self) -> Seq<char> {
        match self {
            Field::Email => "email"@,
            Field::Name => "name"@,
        }
    }
}

/// Why a payload was not accepted as a sign-up form.
#[derive(Clone, Copy, Debug, PartialEq, Eq, Structural)]
pub enum FormError {
    /// The decoder refused the payload.
    Malformed,
    /// No pair carries this field.
    MissingField(Field),
    /// A second pair carries this field.
    DuplicateField(Field),
}

/// What a subscriber submits.
#[derive(Clone, Debug, PartialEq, Eq)]
pub struct FormData {
    pub email: String,
    pub name: String,
}

/// A form as specifications see it.
pub struct FormDataView {
    pub email: Seq<char>,
    pub name: Seq<char>,
}

impl View for FormData {
    type V = FormDataView;

    open spec fn view(&self) -> FormDataView {
        FormDataView { email: self.email@, name: self.name@ }
    }
}

/// How many of `pairs` carry `key`.
pub open spec fn occurrences(pairs: Pairs, key: Seq<char>) -> nat
    decreases pairs.len(),
{
    if pairs.len() == 0 {
        0
    } else {
        occurrences(pairs.drop_last(), key) + if pairs.last().0 == key {
            1nat
        } else {
            0nat
        }
    }
}

/// The value of the first of `pairs` that carries `key`.
pub open spec fn first_value(pairs: Pairs, key: Seq<char>) -> Option<Seq<char>>
    decreases pairs.len(),
{
    if pairs.len() == 0 {
        None
    } else {
        match first_value(pairs.drop_last(), key) {
            Some(value) => Some(value),
            None => if pairs.last().0 == key {
                Some(pairs.last().1)
            } else {
                None
            },
        }
    }
}

/// The field of the earliest pair that carries a form field which a pair
/// before it carried already.
pub open spec fn first_repeated(pairs: Pairs) -> Option<Field>
    decreases pairs.len(),
{
    if pairs.len() == 0 {
        None
    } else {
        let before = pairs.drop_last();
        match first_repeated(before) {
            Some(field) => Some(field),
            None => if pairs.last().0 == Field::Email.key() && occurrences(
                before,
                Field::Email.key(),
            ) > 0 {
                Some(Field::Email)
            } else if pairs.last().0 == Field::Name.key() && occurrences(
                before,
                Field::Name.key(),
            ) > 0 {
                Some(Field::Name)
            } else {
                None
            },
        }
    }
}

/// The form that `pairs` hold, or the reason why they hold none.
///
/// Each field must be carried by exactly one pair; pairs under other keys
/// are ignored. A repeated field is reported before a missing one, and a
/// missing email before a missing name.
pub open spec fn form_of(pairs: Pairs) -> Result<FormDataView, FormError> {
    if let Some(field) = first_repeated(pairs) {
        Err(FormError::DuplicateField(field))
    } else if first_value(pairs, Field::Email.key()) is None {
        Err(FormError::MissingField(Field::Email))
    } else if first_value(pairs, Field::Name.key()) is None {
        Err(FormError::MissingField(Field::Name))
    } else {
        Ok(
            FormDataView {
                email: first_value(pairs, Field::Email.key())->Some_0,
                name: first_value(pairs, Field::Name.key())->Some_0,
            },
        )
    }
}

/// The form that a payload holds, or the reason why it holds none.
pub open spec fn parsed(body: Seq<u8>) -> Result<FormDataView, FormError> {
    match urlencoded_pairs(body) {
        Some(pairs) => form_of(pairs),
        None => Err(FormError::Malformed),
    }
}

/// The outcome of parsing as specifications see it.
pub open spec fn result_view(result: Result<FormData, FormError>) -> Result<
    FormDataView,
    FormError,
> {
    match result {
        Ok(form) => Ok(form@),
        Err(error) => Err(error),
    }
}

/// A repeated field found among the first `n` pairs is the one reported for
/// all of them: later pairs cannot change which repetition came first.
pub proof fn lemma_first_repeated_is_stable(pairs: Pairs, n: int)
    requires
        0 <= n <= pairs.len(),
        first_repeated(pairs.take(n)) is Some,
    ensures
        first_repeated(pairs) == first_repeated(pairs.take(n)),
    decreases pairs.len() - n,
{
    if n == pairs.len() {
        assert(pairs.take(n) == pairs);
    } else {
        assert(pairs.take(n + 1).drop_last() == pairs.take(n));
        lemma_first_repeated_is_stable(pairs, n + 1);
    }
}

/// A key has a first value exactly when some pair carries it.
pub proof fn lemma_first_value_is_some_iff_carried(pairs: Pairs, key: Seq<char>)
    ensures
        first_value(pairs, key) is Some <==> occurrences(pairs, key) > 0,
    decreases pairs.len(),
{
    if pairs.len() > 0 {
        lemma_first_value_is_some_iff_carried(pairs.drop_last(), key);
    }
}

/// No field is reported as repeated exactly when each field is carried by at
/// most one pair.
pub proof fn lemma_none_repeated_iff_at_most_once(pairs: Pairs)
    ensures
        first_repeated(pairs) is None <==> occurrences(pairs, Field::Email.key()) <= 1
            && occurrences(pairs, Field::Name.key()) <= 1,
    decreases pairs.len(),
{
    if pairs.len() > 0 {
        lemma_none_repeated_iff_at_most_once(pairs.drop_last());
    }
}

/// Pairs hold a form exactly when one pair carries `email` and one carries
/// `name`.
pub proof fn lemma_accepted_iff_each_field_once(pairs: Pairs)
    ensures
        form_of(pairs) is Ok <==> occurrences(pairs, Field::Email.key()) == 1 && occurrences(
            pairs,
            Field::Name.key(),
        ) == 1,
{
    lemma_none_repeated_iff_at_most_once(pairs);
    lemma_first_value_is_some_iff_carried(pairs, Field::Email.key());
    lemma_first_value_is_some_iff_carried(pairs, Field::Name.key());
}

/// Pairs among which none carries `email`, or none carries `name`, hold no
/// form.
pub proof fn lemma_incomplete_form_is_refused(pairs: Pairs)
    requires
        occurrences(pairs, Field::Email.key()) == 0 || occurrences(pairs, Field::Name.key()) == 0,
    ensures
        form_of(pairs) is Err,
{
    lemma_accepted_iff_each_field_once(pairs);
}

/// The first value of a key is the value of a pair that carries the key, and
/// if only one pair carries the key, then of that pair.
pub proof fn lemma_first_value_is_carried(pairs: Pairs, key: Seq<char>)
    requires
        first_value(pairs, key) is Some,
    ensures
        exists|i: int| 0 <= i < pairs.len() && pairs[i] == (key, first_value(pairs, key)->Some_0),
        occurrences(pairs, key) == 1 ==> forall|i: int|
            0 <= i < pairs.len() && pairs[i].0 == key ==> pairs[i].1 == first_value(
                pairs,
                key,
            )->Some_0,
    decreases pairs.len(),
{
    let before = pairs.drop_last();
    let value = first_value(pairs, key)->Some_0;
    lemma_first_value_is_some_iff_carried(before, key);
    if first_value(before, key) is Some {
        lemma_first_value_is_carried(before, key);
        let i = choose|i: int| 0 <= i < before.len() && before[i] == (key, value);
        assert(pairs[i] == (key, value));
        if occurrences(pairs, key) == 1 {
            assert forall|i: int| 0 <= i < pairs.len() && pairs[i].0 == key implies pairs[i].1
                == value by {
                assert(i < before.len());
                assert(before[i] == pairs[i]);
            }
        }
    } else {
        assert(pairs[pairs.len() - 1] == (key, value));
        assert forall|i: int| 0 <= i < pairs.len() && pairs[i].0 == key implies pairs[i].1
            == value by {
            if i < before.len() {
                assert(before[i] == pairs[i]);
                lemma_carried_counts(before, key, i);
            }
        }
    }
}

/// A pair that carries a key is counted among its occurrences.
pub proof fn lemma_carried_counts(pairs: Pairs, key: Seq<char>, i: int)
    requires
        0 <= i < pairs.len(),
        pairs[i].0 == key,
    ensures
        occurrences(pairs, key) > 0,
    decreases pairs.len(),
{
    if i < pairs.len() - 1 {
        lemma_carried_counts(pairs.drop_last(), key, i);
    }
}

/// An accepted form holds what the payload's pairs say: the email is the
/// value of the one pair that carries `email`, the name the value of the one
/// pair that carries `name`, each unchanged.
pub proof fn lemma_accepted_form_is_verbatim(pairs: Pairs, i: int, j: int)
    requires
        form_of(pairs) is Ok,
        0 <= i < pairs.len(),
        0 <= j < pairs.len(),
        pairs[i].0 == Field::Email.key(),
        pairs[j].0 == Field::Name.key(),
    ensures
        form_of(pairs)->Ok_0.email == pairs[i].1,
        form_of(pairs)->Ok_0.name == pairs[j].1,
{
    lemma_accepted_iff_each_field_once(pairs);
    lemma_first_value_is_carried(pairs, Field::Email.key());
    lemma_first_value_is_carried(pairs, Field::Name.key());
}

impl FormData {
    /// Picks the form out of decoded pairs.
    ///
    /// Succeeds exactly when one pair carries `email` and one carries `name`;
    /// see [`form_of`] for the error reported otherwise.
    pub fn from_pairs(pairs: &Vec<(String, String)>) -> (result: Result<FormData, FormError>)
        ensures
            result_view(result) == form_of(pairs.deep_view()),
    {
        let email_key = String::from_str("email");
        let name_key = String::from_str("name");
        proof {
            reveal_strlit("email");
            reveal_strlit("name");
        }
        let ghost all = pairs.deep_view();
        let mut email: Option<String> = None;
        let mut name: Option<String> = None;
        let mut i: usize = 0;
        while i < pairs.len()
            invariant
                i <= pairs.len(),
                all == pairs.deep_view(),
                email_key@ == Field::Email.key(),
                name_key@ == Field::Name.key(),
                Field::Email.key() != Field::Name.key(),
                first_repeated(all.take(i as int)) is None,
                email.deep_view() == first_value(all.take(i as int), Field::Email.key()),
                name.deep_view() == first_value(all.take(i as int), Field::Name.key()),
                email is Some <==> occurrences(all.take(i as int), Field::Email.key()) > 0,
                name is Some <==> occurrences(all.take(i as int), Field::Name.key()) > 0,
            decreases pairs.len() - i,
        {
            let key = &pairs[i].0;
            let value = &pairs[i].1;
            proof {
                assert(all.take(i + 1).drop_last() == all.take(i as int));
                assert(all.take(i + 1).last() == (key@, value@));
            }
            if *key == email_key {
                if email.is_some() {
                    proof {
                        lemma_first_repeated_is_stable(all, i + 1);
                    }
                    return Err(FormError::DuplicateField(Field::Email));
                }
                email = Some(value.clone());
            } else if *key == name_key {
                if name.is_some() {
                    proof {
                        lemma_first_repeated_is_stable(all, i + 1);
                    }
                    return Err(FormError::DuplicateField(Field::Name));
                }
                name = Some(value.clone());
            }
            i += 1;
        }
        proof {
            assert(all.take(i as int) == all);
        }
        match (email, name) {
            (None, _) => Err(FormError::MissingField(Field::Email)),
            (Some(_), None) => Err(FormError::MissingField(Field::Name)),
            (Some(email), Some(name)) => Ok(FormData { email, name }),
        }
    }

    /// Reads a form from an `application/x-www-form-urlencoded` payload.
    ///
    /// The payload is decoded into pairs and the form is picked out of them;
    /// a payload that the decoder refuses is [`FormError::Malformed`].
    pub fn parse(body: &[u8]) -> (result: Result<FormData, FormError>)
        ensures
            result_view(result) == parsed(body@),
            body@.len() == 0 ==> result_view(result) == Err::<FormDataView, FormError>(
                FormError::MissingField(Field::Email),
            ),
    {
        match decode_pairs(body) {
            Ok(pairs) => FormData::from_pairs(&pairs),
            Err(_) => Err(FormError::Malformed),
        }
    }
}

} // verus!
