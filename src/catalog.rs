//! Catalog rows and their decoding into game records.
use vstd::prelude::*;

verus! {

/// One row of the catalog's games table as read column by column: a column
/// is `None` when it was null or could not be read as its type. The play
/// time is carried as the bit pattern of a 32-bit float.
pub struct RawRow {
    pub id: Option<u32>,
    pub name: Option<String>,
    pub slug: Option<String>,
    pub lastplayed: Option<u32>,
    pub installed_at: Option<u32>,
    pub has_custom_banner: Option<u32>,
    pub has_custom_coverart_big: Option<u32>,
    pub playtime_bits: Option<u32>,
}

/// A decoded game record. Missing optional columns hold zero; `playtime_bits`
/// is the bit pattern of the play time in hours (zero is `0.0`).
pub struct GameRecord {
    pub id: u32,
    pub name: String,
    pub slug: String,
    pub lastplayed: u32,
    pub installed_at: u32,
    pub has_custom_banner: u32,
    pub has_custom_coverart_big: u32,
    pub playtime_bits: u32,
}

/// The value of an optional column, zero when it is missing.
pub open spec fn or_zero(v: Option<u32>) -> u32 {
    match v {
        Some(x) => x,
        None => 0,
    }
}

/// A row decodes exactly when its id, name and slug are present.
pub open spec fn row_decodes(raw: RawRow) -> bool {
    raw.id is Some && raw.name is Some && raw.slug is Some
}

/// The record that a decodable row gives.
pub open spec fn record_of(raw: RawRow) -> GameRecord
    recommends
        row_decodes(raw),
{
    GameRecord {
        id: raw.id->Some_0,
        name: raw.name->Some_0,
        slug: raw.slug->Some_0,
        lastplayed: or_zero(raw.lastplayed),
        installed_at: or_zero(raw.installed_at),
        has_custom_banner: or_zero(raw.has_custom_banner),
        has_custom_coverart_big: or_zero(raw.has_custom_coverart_big),
        playtime_bits: or_zero(raw.playtime_bits),
    }
}

/// The records of the decodable rows, in row order.
pub open spec fn decoded_rows(rows: Seq<RawRow>) -> Seq<GameRecord>
    decreases rows.len(),
{
    if rows.len() == 0 {
        Seq::empty()
    } else if row_decodes(rows.last()) {
        decoded_rows(rows.drop_last()).push(record_of(rows.last()))
    } else {
        decoded_rows(rows.drop_last())
    }
}

fn value_or_zero(v: Option<u32>) -> (r: u32)
    ensures
        r == or_zero(v),
{
    match v {
        Some(x) => x,
        None => 0,
    }
}

/// Decodes one row: `None` when a mandatory column is missing, otherwise the
/// record with zero for each missing optional column.
pub fn decode_row(raw: &RawRow) -> (r: Option<GameRecord>)
    ensures
        r is Some <==> row_decodes(*raw),
        r matches Some(g) ==> g == record_of(*raw),
{
    match (&raw.id, &raw.name, &raw.slug) {
        (Some(id), Some(name), Some(slug)) => Some(
            GameRecord {
                id: *id,
                name: name.clone(),
                slug: slug.clone(),
                lastplayed: value_or_zero(raw.lastplayed),
                installed_at: value_or_zero(raw.installed_at),
                has_custom_banner: value_or_zero(raw.has_custom_banner),
                has_custom_coverart_big: value_or_zero(raw.has_custom_coverart_big),
                playtime_bits: value_or_zero(raw.playtime_bits),
            },
        ),
        _ => None,
    }
}

/// Decodes every row, skipping those whose mandatory columns are missing.
pub fn decode_rows(rows: &Vec<RawRow>) -> (r: Vec<GameRecord>)
    ensures
        r@ == decoded_rows(rows@),
{
    let mut out: Vec<GameRecord> = Vec::new();
    let mut i: usize = 0;
    while i < rows.len()
        invariant
            i <= rows@.len(),
            out@ == decoded_rows(rows@.subrange(0, i as int)),
        decreases rows@.len() - i,
    {
        let ghost prefix = rows@.subrange(0, i + 1);
        assert(prefix.drop_last() =~= rows@.subrange(0, i as int));
        match decode_row(&rows[i]) {
            Some(g) => out.push(g),
            None => {},
        }
        i = i + 1;
    }
    assert(rows@.subrange(0, rows@.len() as int) =~= rows@);
    out
}

} // verus!
