//! Records exchanged with the remote catalogue.
//!
//! A detail record is sparse: every field is present or absent on its own.
//! Its present fields can be listed as entries, and a record rebuilt from
//! entries; absent fields yield no entry at all.
use vstd::prelude::*;

verus! {

/// One collection of the catalogue: its display name and endpoint locator.
pub struct Comic {
    pub name: String,
    pub url: String,
}

/// Reply of the list-collections operation.
pub struct PublisherResponse {
    pub comics: Vec<Comic>,
}

/// Reply of the list-items operation: the item endpoint locators of one collection.
pub struct LambdaResponse {
    pub urls: Vec<String>,
}

/// The named fields of a detail record.
#[derive(Clone, Copy, Debug, PartialEq, Eq, Structural)]
pub enum Field {
    Id,
    Name,
    Writers,
    Artists,
    Publisher,
    ReleaseDate,
    CoverPrice,
    CriticReviewCount,
    UserReviewCount,
    CriticReviewScore,
    UserReviewScore,
}

/// The value of one present field.
#[derive(Debug)]
pub enum FieldValue {
    Text(String),
    List(Vec<String>),
}

/// The fully fetched, sparse description of one item.
#[derive(Debug)]
pub struct ComicInfo {
    pub id: Option<String>,
    pub name: Option<String>,
    pub writers: Option<Vec<String>>,
    pub artists: Option<Vec<String>>,
    pub publisher: Option<String>,
    pub release_date: Option<String>,
    pub cover_price: Option<String>,
    pub critic_review_count: Option<String>,
    pub user_review_count: Option<String>,
    pub critic_review_score: Option<String>,
    pub user_review_score: Option<String>,
}

/// The record with every field absent.
pub open spec fn empty_record() -> ComicInfo {
    ComicInfo {
        id: None,
        name: None,
        writers: None,
        artists: None,
        publisher: None,
        release_date: None,
        cover_price: None,
        critic_review_count: None,
        user_review_count: None,
        critic_review_score: None,
        user_review_score: None,
    }
}

/// Whether a field holds a list of names rather than a text.
pub open spec fn is_list_field(f: Field) -> bool {
    f == Field::Writers || f == Field::Artists
}

/// The entry of a text field: one if present, none if absent.
pub open spec fn text_entry(f: Field, v: Option<String>) -> Seq<(Field, FieldValue)> {
    match v {
        Some(s) => seq![(f, FieldValue::Text(s))],
        None => Seq::empty(),
    }
}

/// The entry of a list field: one if present, none if absent.
pub open spec fn list_entry(f: Field, v: Option<Vec<String>>) -> Seq<(Field, FieldValue)> {
    match v {
        Some(l) => seq![(f, FieldValue::List(l))],
        None => Seq::empty(),
    }
}

/// The present fields of a record, in declaration order.
pub open spec fn entries_of(r: ComicInfo) -> Seq<(Field, FieldValue)> {
    text_entry(Field::Id, r.id) + text_entry(Field::Name, r.name) + list_entry(
        Field::Writers,
        r.writers,
    ) + list_entry(Field::Artists, r.artists) + text_entry(Field::Publisher, r.publisher)
        + text_entry(Field::ReleaseDate, r.release_date) + text_entry(
        Field::CoverPrice,
        r.cover_price,
    ) + text_entry(Field::CriticReviewCount, r.critic_review_count) + text_entry(
        Field::UserReviewCount,
        r.user_review_count,
    ) + text_entry(Field::CriticReviewScore, r.critic_review_score) + text_entry(
        Field::UserReviewScore,
        r.user_review_score,
    )
}

/// The number of present fields.
pub open spec fn present_count(r: ComicInfo) -> nat {
    (if r.id is Some { 1nat } else { 0 }) + (if r.name is Some { 1nat } else { 0 }) + (
    if r.writers is Some { 1nat } else { 0 }) + (if r.artists is Some { 1nat } else { 0 }) + (
    if r.publisher is Some { 1nat } else { 0 }) + (if r.release_date is Some { 1nat } else { 0 })
        + (if r.cover_price is Some { 1nat } else { 0 }) + (if r.critic_review_count is Some {
        1nat
    } else { 0 }) + (if r.user_review_count is Some { 1nat } else { 0 }) + (
    if r.critic_review_score is Some { 1nat } else { 0 }) + (if r.user_review_score is Some {
        1nat
    } else { 0 })
}

/// The record with one field set from an entry; an entry whose value is not of
/// the field's kind leaves the record as it is.
pub open spec fn with_entry(r: ComicInfo, f: Field, v: FieldValue) -> ComicInfo {
    match v {
        FieldValue::Text(s) => match f {
            Field::Id => ComicInfo { id: Some(s), ..r },
            Field::Name => ComicInfo { name: Some(s), ..r },
            Field::Publisher => ComicInfo { publisher: Some(s), ..r },
            Field::ReleaseDate => ComicInfo { release_date: Some(s), ..r },
            Field::CoverPrice => ComicInfo { cover_price: Some(s), ..r },
            Field::CriticReviewCount => ComicInfo { critic_review_count: Some(s), ..r },
            Field::UserReviewCount => ComicInfo { user_review_count: Some(s), ..r },
            Field::CriticReviewScore => ComicInfo { critic_review_score: Some(s), ..r },
            Field::UserReviewScore => ComicInfo { user_review_score: Some(s), ..r },
            _ => r,
        },
        FieldValue::List(l) => match f {
            Field::Writers => ComicInfo { writers: Some(l), ..r },
            Field::Artists => ComicInfo { artists: Some(l), ..r },
            _ => r,
        },
    }
}

/// The record obtained by applying the entries in order.
pub open spec fn apply_entries(r: ComicInfo, es: Seq<(Field, FieldValue)>) -> ComicInfo
    decreases es.len(),
{
    if es.len() == 0 {
        r
    } else {
        apply_entries(with_entry(r, es[0].0, es[0].1), es.drop_first())
    }
}

proof fn lemma_apply_concat(r: ComicInfo, a: Seq<(Field, FieldValue)>, b: Seq<(Field, FieldValue)>)
    ensures
        apply_entries(r, a + b) == apply_entries(apply_entries(r, a), b),
    decreases a.len(),
{
    if a.len() > 0 {
        assert((a + b).drop_first() =~= a.drop_first() + b);
        lemma_apply_concat(with_entry(r, a[0].0, a[0].1), a.drop_first(), b);
    } else {
        assert(a + b =~= b);
    }
}

proof fn lemma_apply_one(x: ComicInfo, es: Seq<(Field, FieldValue)>)
    requires
        es.len() <= 1,
    ensures
        es.len() == 0 ==> apply_entries(x, es) == x,
        es.len() == 1 ==> apply_entries(x, es) == with_entry(x, es[0].0, es[0].1),
{
    reveal_with_fuel(apply_entries, 2);
    if es.len() == 1 {
        assert(es.drop_first().len() == 0);
    }
}

/// Applying the entries of the fields up to one position, from the empty
/// record, yields the record with those fields copied and the others absent.
proof fn lemma_step(
    x: ComicInfo,
    prefix: Seq<(Field, FieldValue)>,
    piece: Seq<(Field, FieldValue)>,
    y: ComicInfo,
)
    requires
        apply_entries(empty_record(), prefix) == x,
        piece.len() <= 1,
        piece.len() == 0 ==> y == x,
        piece.len() == 1 ==> y == with_entry(x, piece[0].0, piece[0].1),
    ensures
        apply_entries(empty_record(), prefix + piece) == y,
{
    lemma_apply_concat(empty_record(), prefix, piece);
    lemma_apply_one(x, piece);
}

/// Listing the present fields of a record and rebuilding a record from that
/// list, starting from the empty record, gives back the same record: present
/// fields keep their values and absent ones stay absent. The list holds one
/// entry per present field and nothing for an absent one.
#[verifier::rlimit(40)]
pub proof fn lemma_sparse_round_trip(r: ComicInfo)
    ensures
        apply_entries(empty_record(), entries_of(r)) == r,
        entries_of(r).len() == present_count(r),
{
    let e = empty_record();
    let p1 = text_entry(Field::Id, r.id);
    let p2 = text_entry(Field::Name, r.name);
    let p3 = list_entry(Field::Writers, r.writers);
    let p4 = list_entry(Field::Artists, r.artists);
    let p5 = text_entry(Field::Publisher, r.publisher);
    let p6 = text_entry(Field::ReleaseDate, r.release_date);
    let p7 = text_entry(Field::CoverPrice, r.cover_price);
    let p8 = text_entry(Field::CriticReviewCount, r.critic_review_count);
    let p9 = text_entry(Field::UserReviewCount, r.user_review_count);
    let p10 = text_entry(Field::CriticReviewScore, r.critic_review_score);
    let p11 = text_entry(Field::UserReviewScore, r.user_review_score);
    let x1 = ComicInfo { id: r.id, ..e };
    let x2 = ComicInfo { name: r.name, ..x1 };
    let x3 = ComicInfo { writers: r.writers, ..x2 };
    let x4 = ComicInfo { artists: r.artists, ..x3 };
    let x5 = ComicInfo { publisher: r.publisher, ..x4 };
    let x6 = ComicInfo { release_date: r.release_date, ..x5 };
    let x7 = ComicInfo { cover_price: r.cover_price, ..x6 };
    let x8 = ComicInfo { critic_review_count: r.critic_review_count, ..x7 };
    let x9 = ComicInfo { user_review_count: r.user_review_count, ..x8 };
    let x10 = ComicInfo { critic_review_score: r.critic_review_score, ..x9 };
    let x11 = ComicInfo { user_review_score: r.user_review_score, ..x10 };
    let s0 = Seq::<(Field, FieldValue)>::empty();
    assert(apply_entries(e, s0) == e);
    lemma_step(e, s0, p1, x1);
    assert(s0 + p1 =~= p1);
    lemma_step(x1, p1, p2, x2);
    lemma_step(x2, p1 + p2, p3, x3);
    lemma_step(x3, p1 + p2 + p3, p4, x4);
    lemma_step(x4, p1 + p2 + p3 + p4, p5, x5);
    lemma_step(x5, p1 + p2 + p3 + p4 + p5, p6, x6);
    lemma_step(x6, p1 + p2 + p3 + p4 + p5 + p6, p7, x7);
    lemma_step(x7, p1 + p2 + p3 + p4 + p5 + p6 + p7, p8, x8);
    lemma_step(x8, p1 + p2 + p3 + p4 + p5 + p6 + p7 + p8, p9, x9);
    lemma_step(x9, p1 + p2 + p3 + p4 + p5 + p6 + p7 + p8 + p9, p10, x10);
    lemma_step(x10, p1 + p2 + p3 + p4 + p5 + p6 + p7 + p8 + p9 + p10, p11, x11);
    assert(x11 == r);
}

/// Appends the entry of a text field, if present.
fn push_text(out: &mut Vec<(Field, FieldValue)>, f: Field, v: Option<String>)
    ensures
        final(out)@ == old(out)@ + text_entry(f, v),
{
    if let Some(s) = v {
        out.push((f, FieldValue::Text(s)));
    }
    assert(final(out)@ =~= old(out)@ + text_entry(f, v));
}

/// Appends the entry of a list field, if present.
fn push_list(out: &mut Vec<(Field, FieldValue)>, f: Field, v: Option<Vec<String>>)
    ensures
        final(out)@ == old(out)@ + list_entry(f, v),
{
    if let Some(l) = v {
        out.push((f, FieldValue::List(l)));
    }
    assert(final(out)@ =~= old(out)@ + list_entry(f, v));
}

impl ComicInfo {
    /// A record with every field absent.
    pub fn new() -> (r: ComicInfo)
        ensures
            r == empty_record(),
    {
        ComicInfo {
            id: None,
            name: None,
            writers: None,
            artists: None,
            publisher: None,
            release_date: None,
            cover_price: None,
            critic_review_count: None,
            user_review_count: None,
            critic_review_score: None,
            user_review_score: None,
        }
    }

    /// Sets one field from an entry; an entry whose value is not of the
    /// field's kind is ignored.
    pub fn set_entry(self, f: Field, v: FieldValue) -> (r: ComicInfo)
        ensures
            r == with_entry(self, f, v),
    {
        match v {
            FieldValue::Text(s) => match f {
                Field::Id => ComicInfo { id: Some(s), ..self },
                Field::Name => ComicInfo { name: Some(s), ..self },
                Field::Publisher => ComicInfo { publisher: Some(s), ..self },
                Field::ReleaseDate => ComicInfo { release_date: Some(s), ..self },
                Field::CoverPrice => ComicInfo { cover_price: Some(s), ..self },
                Field::CriticReviewCount => ComicInfo { critic_review_count: Some(s), ..self },
                Field::UserReviewCount => ComicInfo { user_review_count: Some(s), ..self },
                Field::CriticReviewScore => ComicInfo { critic_review_score: Some(s), ..self },
                Field::UserReviewScore => ComicInfo { user_review_score: Some(s), ..self },
                _ => self,
            },
            FieldValue::List(l) => match f {
                Field::Writers => ComicInfo { writers: Some(l), ..self },
                Field::Artists => ComicInfo { artists: Some(l), ..self },
                _ => self,
            },
        }
    }

    /// The present fields, in declaration order, one entry each.
    pub fn into_entries(self) -> (r: Vec<(Field, FieldValue)>)
        ensures
            r@ == entries_of(self),
    {
        let mut out: Vec<(Field, FieldValue)> = Vec::new();
        push_text(&mut out, Field::Id, self.id);
        push_text(&mut out, Field::Name, self.name);
        push_list(&mut out, Field::Writers, self.writers);
        push_list(&mut out, Field::Artists, self.artists);
        push_text(&mut out, Field::Publisher, self.publisher);
        push_text(&mut out, Field::ReleaseDate, self.release_date);
        push_text(&mut out, Field::CoverPrice, self.cover_price);
        push_text(&mut out, Field::CriticReviewCount, self.critic_review_count);
        push_text(&mut out, Field::UserReviewCount, self.user_review_count);
        push_text(&mut out, Field::CriticReviewScore, self.critic_review_score);
        push_text(&mut out, Field::UserReviewScore, self.user_review_score);
        out
    }

    /// Builds a record from entries, applied in order, starting from the
    /// record with every field absent.
    pub fn from_entries(entries: Vec<(Field, FieldValue)>) -> (r: ComicInfo)
        ensures
            r == apply_entries(empty_record(), entries@),
    {
        let ghost all = entries@;
        let mut rest = entries;
        let mut r = ComicInfo::new();
        while rest.len() > 0
            invariant
                apply_entries(r, rest@) == apply_entries(empty_record(), all),
            decreases rest.len(),
        {
            let (f, v) = rest.remove(0);
            r = r.set_entry(f, v);
        }
        r
    }
}

} // verus!
