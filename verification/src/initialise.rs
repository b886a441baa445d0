//! Initial items built from geography data: one question per country with a
//! known capital.
use vstd::prelude::*;
use crate::item::Item;
use crate::storage::StoredData;

verus! {

/// The question asked about a country.
pub open spec fn capital_question(name: Seq<char>) -> Seq<char> {
    "What is the capital of "@ + name + "?"@
}

/// The answer to the question about a country.
pub open spec fn capital_answer(name: Seq<char>, capital: Seq<char>) -> Seq<char> {
    "The capital of "@ + name + " is "@ + capital
}

/// The item about a country and its capital: the question, with the answer
/// as its only (correct) choice.
pub open spec fn capital_item(name: Seq<char>, capital: Seq<char>) -> (Seq<char>, Seq<Seq<char>>) {
    (capital_question(name), seq![capital_answer(name, capital)])
}

/// A geography row without a country name.
#[derive(Debug, PartialEq, Eq)]
pub enum GeographyError {
    /// The row at this index has no country name.
    MissingName(usize),
}

/// What the first `n` rows give: the items of the rows with a capital, up
/// to the first row without a name, and the index of that row if there is
/// one.
pub open spec fn geography(names: Seq<Option<String>>, capitals: Seq<Option<String>>, n: nat) -> (Seq<(Seq<char>, Seq<Seq<char>>)>, Option<nat>)
    decreases n,
{
    if n == 0 {
        (Seq::empty(), None)
    } else {
        let (items, missing) = geography(names, capitals, (n - 1) as nat);
        if missing is Some {
            (items, missing)
        } else {
            match names[n - 1] {
                None => (items, Some((n - 1) as nat)),
                Some(name) => match capitals[n - 1] {
                    None => (items, None),
                    Some(capital) => (items.push(capital_item(name@, capital@)), None),
                },
            }
        }
    }
}

/// What all rows that both columns reach give.
pub open spec fn geography_rows(names: Seq<Option<String>>, capitals: Seq<Option<String>>) -> (Seq<(Seq<char>, Seq<Seq<char>>)>, Option<nat>) {
    geography(names, capitals, if names.len() <= capitals.len() { names.len() } else { capitals.len() })
}

/// The item about a country and its capital.
pub fn capital_item_of(name: &str, capital: &str) -> (item: Item)
    ensures
        item@ == capital_item(name@, capital@),
{
    let mut question = String::from_str("What is the capital of ");
    question.append(name);
    question.append("?");
    let mut answer = String::from_str("The capital of ");
    answer.append(name);
    answer.append(" is ");
    answer.append(capital);
    let mut answers: Vec<String> = Vec::new();
    answers.push(answer);
    let item = Item::MultipleChoice { answers, question };
    assert(item@.1 =~= seq![capital_answer(name@, capital@)]);
    item
}

/// Builds the items of the geography rows, pairing the country column with
/// the capital column row by row: a row without a capital is skipped, and
/// the first row without a country name ends the work with an error (the
/// items before it stand).
pub fn geography_items(names: &[Option<String>], capitals: &[Option<String>]) -> (r: (Vec<Item>, Result<(), GeographyError>))
    ensures
        r.0@.map_values(|i: Item| i@) == geography_rows(names@, capitals@).0,
        geography_rows(names@, capitals@).1 is None ==> r.1 is Ok,
        geography_rows(names@, capitals@).1 matches Some(row) ==> r.1 == Err::<(), GeographyError>(
            GeographyError::MissingName(row as usize),
        ),
{
    let n = if names.len() <= capitals.len() { names.len() } else { capitals.len() };
    let mut items: Vec<Item> = Vec::new();
    let mut i: usize = 0;
    while i < n
        invariant
            n == (if names@.len() <= capitals@.len() { names@.len() } else { capitals@.len() }),
            i <= n,
            geography(names@, capitals@, i as nat) == (items@.map_values(|it: Item| it@), None::<nat>),
        decreases n - i,
    {
        let ghost before = items@;
        match &names[i] {
            None => {
                proof {
                    assert(geography(names@, capitals@, (i + 1) as nat) == (items@.map_values(|it: Item| it@), Some(i as nat)));
                    lemma_geography_stops(names@, capitals@, (i + 1) as nat, n as nat);
                }
                return (items, Err(GeographyError::MissingName(i)));
            },
            Some(name) => match &capitals[i] {
                None => {},
                Some(capital) => {
                    let item = capital_item_of(name.as_str(), capital.as_str());
                    items.push(item);
                    assert(items@.map_values(|it: Item| it@) =~= before.map_values(|it: Item| it@).push(item@));
                },
            },
        }
        i += 1;
    }
    (items, Ok(()))
}

/// Initialisation found data already stored.
#[derive(Debug, PartialEq, Eq)]
pub struct DataPresent;

/// Initialisation only fills an empty store: an error when any feedback,
/// item or user is stored already.
pub fn ensure_no_data(data: &StoredData) -> (r: Result<(), DataPresent>)
    requires
        data.wf(),
    ensures
        r is Ok <==> (data.feedback().len() == 0 && data.items().len() == 0 && data.users()
            == Map::<Seq<char>, crate::shared::Hashed>::empty()),
{
    if data.is_empty() {
        Ok(())
    } else {
        Err(DataPresent)
    }
}

/// When each of the first `n` rows has a name and a capital, each row gives
/// exactly one item, in row order, whatever the name and the capital are:
/// the question about that country with its capital as the only answer.
pub proof fn law_every_complete_row_gives_its_item(names: Seq<Option<String>>, capitals: Seq<Option<String>>, n: nat)
    requires
        n <= names.len(),
        n <= capitals.len(),
        forall|i: int| 0 <= i < n ==> #[trigger] names[i] is Some && capitals[i] is Some,
    ensures
        geography(names, capitals, n).1 is None,
        geography(names, capitals, n).0.len() == n,
        forall|i: int|
            0 <= i < n ==> #[trigger] geography(names, capitals, n).0[i] == capital_item(
                names[i]->0@,
                capitals[i]->0@,
            ),
    decreases n,
{
    if n > 0 {
        law_every_complete_row_gives_its_item(names, capitals, (n - 1) as nat);
        assert(names[n - 1] is Some && capitals[n - 1] is Some);
    }
}

/// Work stops at the first row without a name and at no other row: the
/// reported row has no name and every row before it has one; when none is
/// reported, every row has a name.
pub proof fn law_stops_at_first_missing_name(names: Seq<Option<String>>, capitals: Seq<Option<String>>, n: nat)
    requires
        n <= names.len(),
    ensures
        geography(names, capitals, n).1 matches Some(k) ==> {
            &&& k < n
            &&& names[k as int] is None
            &&& forall|j: int| 0 <= j < k ==> #[trigger] names[j] is Some
        },
        geography(names, capitals, n).1 is None ==> forall|j: int| 0 <= j < n ==> #[trigger] names[j] is Some,
    decreases n,
{
    if n > 0 {
        law_stops_at_first_missing_name(names, capitals, (n - 1) as nat);
    }
}

/// Once a row without a name is met, later rows change nothing.
proof fn lemma_geography_stops(names: Seq<Option<String>>, capitals: Seq<Option<String>>, m: nat, n: nat)
    requires
        m <= n,
        geography(names, capitals, m).1 is Some,
    ensures
        geography(names, capitals, n) == geography(names, capitals, m),
    decreases n - m,
{
    if m < n {
        lemma_geography_stops(names, capitals, m, (n - 1) as nat);
    }
}

} // verus!
