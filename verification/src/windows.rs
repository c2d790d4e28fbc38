//! Windows zones: the table that maps them to IANA zones, and the prober for
//! Windows hosts.
//!
//! Windows names its zones in its own way ("W. Europe Standard Time"). One
//! such name stands for several IANA zones, one per territory, and several
//! IANA zones may share one record. The table is scanned from its start and
//! the first record that matches decides, in both directions.
use vstd::prelude::*;
use vstd::slice::slice_subrange;
use crate::text::{str_eq, text_of, view_of};
use crate::windows_zones::ZONE_ROWS;

verus! {

/// What one record of the table says.
pub struct ZoneRecord {
    /// The zone's name on Windows.
    pub foreign_name: Seq<char>,
    /// The territory that the record is for; `001` is the world.
    pub territory_code: Seq<char>,
    /// The IANA zones of the record, the preferred one first.
    pub iana_names: Seq<Seq<char>>,
}

/// The characters of each name of a list.
pub open spec fn names_of(names: Seq<&'static str>) -> Seq<Seq<char>> {
    Seq::new(names.len(), |i: int| names[i]@)
}

/// One record of the table: a Windows zone, a territory, and the IANA zones
/// that the two stand for, of which there is at least one.
#[derive(Debug)]
pub struct ZoneMapping {
    windows: &'static str,
    territory: &'static str,
    iana: Vec<&'static str>,
}

impl View for ZoneMapping {
    type V = ZoneRecord;

    closed spec fn view(&self) -> ZoneRecord {
        ZoneRecord {
            foreign_name: self.windows@,
            territory_code: self.territory@,
            iana_names: names_of(self.iana@),
        }
    }
}

impl ZoneMapping {
    #[verifier::type_invariant]
    spec fn has_a_name(&self) -> bool {
        self.iana@.len() > 0
    }

    /// Makes a record. There is none without an IANA zone.
    pub fn new(windows: &'static str, territory: &'static str, iana: Vec<&'static str>) -> (r: Option<
        ZoneMapping,
    >)
        ensures
            r is Some <==> iana@.len() > 0,
            r matches Some(mapping) ==> mapping@ == (ZoneRecord {
                foreign_name: windows@,
                territory_code: territory@,
                iana_names: names_of(iana@),
            }),
    {
        if iana.len() == 0 {
            None
        } else {
            Some(ZoneMapping { windows, territory, iana })
        }
    }

    /// The zone's name on Windows.
    pub fn windows(&self) -> (r: &'static str)
        ensures
            r@ == self@.foreign_name,
    {
        self.windows
    }

    /// The territory that the record is for.
    pub fn territory(&self) -> (r: &'static str)
        ensures
            r@ == self@.territory_code,
    {
        self.territory
    }

    /// The IANA zones of the record, the preferred one first.
    pub fn iana(&self) -> (r: &Vec<&'static str>)
        ensures
            r@.len() > 0,
            names_of(r@) == self@.iana_names,
    {
        proof {
            use_type_invariant(self);
        }
        &self.iana
    }

    /// The preferred IANA zone of the record.
    pub fn canonical(&self) -> (r: &'static str)
        ensures
            self@.iana_names.len() > 0,
            r@ == self@.iana_names[0],
    {
        proof {
            use_type_invariant(self);
        }
        self.iana[0]
    }

    /// Whether `name` is one of the record's IANA zones.
    pub fn holds(&self, name: &str) -> (r: bool)
        ensures
            r == self@.iana_names.contains(name@),
    {
        let mut i: usize = 0;
        while i < self.iana.len()
            invariant
                i <= self.iana@.len(),
                forall|k: int| 0 <= k < i ==> self@.iana_names[k] != name@,
            decreases self.iana@.len() - i,
        {
            if str_eq(self.iana[i], name) {
                assert(self@.iana_names[i as int] == name@);
                return true;
            }
            i += 1;
        }
        false
    }
}

/// What a table of records says, record by record.
pub open spec fn records(table: Seq<ZoneMapping>) -> Seq<ZoneRecord> {
    Seq::new(table.len(), |i: int| table[i]@)
}

/// Whether every record of the table has an IANA zone.
pub open spec fn complete(table: Seq<ZoneRecord>) -> bool {
    forall|i: int| 0 <= i < table.len() ==> (#[trigger] table[i]).iana_names.len() > 0
}

/// Whether `at` is the first index of the table whose entry is wanted.
pub open spec fn is_first_where<T>(table: Seq<T>, wanted: spec_fn(T) -> bool, at: int) -> bool {
    &&& 0 <= at < table.len()
    &&& wanted(table[at])
    &&& forall|k: int| 0 <= k < at ==> !wanted(#[trigger] table[k])
}

/// The first entry of the table that is wanted, if there is one.
pub open spec fn first_where<T>(table: Seq<T>, wanted: spec_fn(T) -> bool) -> Option<T> {
    if exists|at: int| is_first_where(table, wanted, at) {
        Some(table[choose|at: int| is_first_where(table, wanted, at)])
    } else {
        None
    }
}

/// The records that a query by Windows zone matches: those with that zone's
/// name and, where a territory is given, with that territory.
pub open spec fn for_foreign(foreign_name: Seq<char>, territory: Option<Seq<char>>) -> spec_fn(
    ZoneRecord,
) -> bool {
    |record: ZoneRecord|
        record.foreign_name == foreign_name && (territory is None || territory == Some(
            record.territory_code,
        ))
}

/// The records that a query by IANA zone matches: those that list it, in
/// whatever position.
pub open spec fn for_iana(iana_name: Seq<char>) -> spec_fn(ZoneRecord) -> bool {
    |record: ZoneRecord| record.iana_names.contains(iana_name)
}

/// The IANA zone that the table gives for a Windows zone: the preferred zone
/// of the first record that matches.
pub open spec fn canonical_iana(
    table: Seq<ZoneRecord>,
    foreign_name: Seq<char>,
    territory: Option<Seq<char>>,
) -> Option<Seq<char>> {
    match first_where(table, for_foreign(foreign_name, territory)) {
        Some(record) => Some(record.iana_names[0]),
        None => None,
    }
}

/// The Windows zone and territory that the table gives for an IANA zone:
/// those of the first record that lists it.
pub open spec fn foreign_of(table: Seq<ZoneRecord>, iana_name: Seq<char>) -> Option<(Seq<char>, Seq<char>)> {
    match first_where(table, for_iana(iana_name)) {
        Some(record) => Some((record.foreign_name, record.territory_code)),
        None => None,
    }
}

/// The characters of an optional pair of strings.
pub open spec fn pair_of(pair: Option<(&'static str, &'static str)>) -> Option<(Seq<char>, Seq<char>)> {
    match pair {
        Some((first, second)) => Some((first@, second@)),
        None => None,
    }
}

/// The first wanted entry is the one at the first wanted index.
pub proof fn lemma_first_where<T>(table: Seq<T>, wanted: spec_fn(T) -> bool, at: int)
    requires
        is_first_where(table, wanted, at),
    ensures
        first_where(table, wanted) == Some(table[at]),
{
    let found = choose|at: int| is_first_where(table, wanted, at);
    assert(is_first_where(table, wanted, found));
    if found < at {
        assert(!wanted(table[found]));
    }
    if at < found {
        assert(!wanted(table[at]));
    }
}

/// Where some entry is wanted, there is a first one.
pub proof fn lemma_some_where<T>(table: Seq<T>, wanted: spec_fn(T) -> bool, at: int)
    requires
        0 <= at < table.len(),
        wanted(table[at]),
    ensures
        exists|first: int| 0 <= first <= at && is_first_where(table, wanted, first),
    decreases at,
{
    if exists|k: int| 0 <= k < at && wanted(#[trigger] table[k]) {
        let k = choose|k: int| 0 <= k < at && wanted(#[trigger] table[k]);
        lemma_some_where(table, wanted, k);
    } else {
        assert(is_first_where(table, wanted, at));
    }
}

/// A zone that some record lists is found by the reverse lookup.
pub proof fn lemma_listed_is_found(table: Seq<ZoneRecord>, at: int, iana: Seq<char>)
    requires
        0 <= at < table.len(),
        table[at].iana_names.contains(iana),
    ensures
        foreign_of(table, iana) is Some,
{
    assert(for_iana(iana)(table[at]));
    lemma_some_where(table, for_iana(iana), at);
    let first = choose|first: int| 0 <= first <= at && is_first_where(table, for_iana(iana), first);
    lemma_first_where(table, for_iana(iana), first);
}

/// The Windows zone of a record is found by the forward lookup, with the
/// record's territory and without one.
pub proof fn lemma_record_is_found(table: Seq<ZoneRecord>, at: int)
    requires
        0 <= at < table.len(),
    ensures
        canonical_iana(table, table[at].foreign_name, Some(table[at].territory_code)) is Some,
        canonical_iana(table, table[at].foreign_name, None) is Some,
{
    let exact = for_foreign(table[at].foreign_name, Some(table[at].territory_code));
    let any = for_foreign(table[at].foreign_name, None);
    assert(exact(table[at]));
    assert(any(table[at]));
    lemma_some_where(table, exact, at);
    lemma_some_where(table, any, at);
    let first = choose|first: int| 0 <= first <= at && is_first_where(table, exact, first);
    lemma_first_where(table, exact, first);
    let first_any = choose|first: int| 0 <= first <= at && is_first_where(table, any, first);
    lemma_first_where(table, any, first_any);
}

/// The forward lookup followed by the reverse one finds a record, not
/// always the one it started from. Where the table gives the zone `iana` for
/// a Windows zone, the table lists `iana`, so the reverse lookup gives a
/// Windows zone for it: that of the first record that lists `iana`, which may
/// be another record, under another name, than the one that was matched.
pub proof fn lemma_forward_then_reverse(
    table: Seq<ZoneRecord>,
    foreign_name: Seq<char>,
    territory: Option<Seq<char>>,
    iana: Seq<char>,
)
    requires
        complete(table),
        canonical_iana(table, foreign_name, territory) == Some(iana),
    ensures
        foreign_of(table, iana) is Some,
        exists|at: int|
            is_first_where(table, for_iana(iana), at) && foreign_of(table, iana) == Some(
                (table[at].foreign_name, table[at].territory_code),
            ),
{
    let wanted = for_foreign(foreign_name, territory);
    let hit = choose|at: int| is_first_where(table, wanted, at);
    assert(is_first_where(table, wanted, hit));
    assert(table[hit].iana_names[0] == iana);
    assert(for_iana(iana)(table[hit]));
    lemma_some_where(table, for_iana(iana), hit);
    let first = choose|first: int| 0 <= first <= hit && is_first_where(table, for_iana(iana), first);
    lemma_first_where(table, for_iana(iana), first);
}

/// The reverse lookup followed by the forward one finds a zone, not always
/// the one it started from. Where the table gives a Windows zone and a
/// territory for `iana`, the forward lookup with the two gives the preferred
/// zone of the first record that has them, and `iana` need not be that zone:
/// it may be an alias in its record.
pub proof fn lemma_reverse_then_forward(
    table: Seq<ZoneRecord>,
    iana: Seq<char>,
    foreign_name: Seq<char>,
    territory: Seq<char>,
)
    requires
        complete(table),
        foreign_of(table, iana) == Some((foreign_name, territory)),
    ensures
        canonical_iana(table, foreign_name, Some(territory)) is Some,
        canonical_iana(table, foreign_name, None) is Some,
        exists|at: int|
            is_first_where(table, for_foreign(foreign_name, Some(territory)), at) && canonical_iana(
                table,
                foreign_name,
                Some(territory),
            ) == Some(table[at].iana_names[0]),
{
    let hit = choose|at: int| is_first_where(table, for_iana(iana), at);
    assert(is_first_where(table, for_iana(iana), hit));
    let exact = for_foreign(foreign_name, Some(territory));
    let any = for_foreign(foreign_name, None);
    assert(exact(table[hit]));
    assert(any(table[hit]));
    lemma_some_where(table, exact, hit);
    lemma_some_where(table, any, hit);
    let first = choose|first: int| 0 <= first <= hit && is_first_where(table, exact, first);
    lemma_first_where(table, exact, first);
    let first_any = choose|first: int| 0 <= first <= hit && is_first_where(table, any, first);
    lemma_first_where(table, any, first_any);
}

/// The two lookups are no inverses of each other. There are tables in which
/// a Windows zone is mapped to an IANA zone that an earlier record lists
/// under another Windows zone, so that going forward and back ends at another
/// name than it started from. This is how the table is meant to work: a zone
/// may be the preferred zone of one record and an alias in another.
pub proof fn lemma_round_trip_can_differ()
    ensures
        exists|table: Seq<ZoneRecord>, foreign_name: Seq<char>, iana: Seq<char>|
            #![trigger canonical_iana(table, foreign_name, None), foreign_of(table, iana)]
            {
                &&& complete(table)
                &&& canonical_iana(table, foreign_name, None) == Some(iana)
                &&& foreign_of(table, iana) matches Some(pair)
                &&& pair.0 != foreign_name
            },
{
    let wide = ZoneRecord {
        foreign_name: seq!['X'],
        territory_code: seq!['0'],
        iana_names: seq![seq!['a'], seq!['b']],
    };
    let narrow = ZoneRecord { foreign_name: seq!['Y'], territory_code: seq!['0'], iana_names: seq![seq!['b']] };
    let table = seq![wide, narrow];
    assert(wide.iana_names[1] == seq!['b']);
    assert(seq!['X'][0] != seq!['Y'][0]);
    assert(seq!['a'][0] != seq!['b'][0]);
    assert(is_first_where(table, for_foreign(seq!['Y'], None), 1));
    lemma_first_where(table, for_foreign(seq!['Y'], None), 1);
    assert(is_first_where(table, for_iana(seq!['b']), 0));
    lemma_first_where(table, for_iana(seq!['b']), 0);
    assert(canonical_iana(table, seq!['Y'], None) == Some(seq!['b']));
    assert(foreign_of(table, seq!['b']) == Some((seq!['X'], seq!['0'])));
}

/// Looks up the IANA zone of a Windows zone in `table`. Without a territory
/// the first record of that Windows zone decides, whatever its territory.
pub fn foreign_to_iana(table: &[ZoneMapping], foreign_name: &str, territory: Option<&str>) -> (r: Option<
    &'static str,
>)
    ensures
        view_of(r) == canonical_iana(records(table@), foreign_name@, view_of(territory)),
        r matches Some(iana) ==> foreign_of(records(table@), iana@) is Some,
{
    let ghost wanted = for_foreign(foreign_name@, view_of(territory));
    let mut i: usize = 0;
    while i < table.len()
        invariant
            i <= table@.len(),
            wanted == for_foreign(foreign_name@, view_of(territory)),
            forall|k: int| 0 <= k < i ==> !wanted(#[trigger] records(table@)[k]),
        decreases table@.len() - i,
    {
        let mapping = &table[i];
        let same_territory = match territory {
            None => true,
            Some(code) => str_eq(mapping.territory(), code),
        };
        if same_territory && str_eq(mapping.windows(), foreign_name) {
            let name = mapping.canonical();
            proof {
                assert(records(table@)[i as int] == mapping@);
                lemma_first_where(records(table@), wanted, i as int);
                assert(mapping@.iana_names[0] == name@);
                lemma_listed_is_found(records(table@), i as int, name@);
            }
            return Some(name);
        }
        assert(!wanted(records(table@)[i as int]));
        i += 1;
    }
    None
}

/// Looks up the Windows zone and the territory of an IANA zone in `table`.
pub fn iana_to_foreign(table: &[ZoneMapping], iana_name: &str) -> (r: Option<(&'static str, &'static str)>)
    ensures
        pair_of(r) == foreign_of(records(table@), iana_name@),
        r matches Some((windows, territory)) ==> {
            &&& canonical_iana(records(table@), windows@, Some(territory@)) is Some
            &&& canonical_iana(records(table@), windows@, None) is Some
        },
{
    let ghost wanted = for_iana(iana_name@);
    let mut i: usize = 0;
    while i < table.len()
        invariant
            i <= table@.len(),
            wanted == for_iana(iana_name@),
            forall|k: int| 0 <= k < i ==> !wanted(#[trigger] records(table@)[k]),
        decreases table@.len() - i,
    {
        let mapping = &table[i];
        if mapping.holds(iana_name) {
            proof {
                assert(records(table@)[i as int] == mapping@);
                lemma_first_where(records(table@), wanted, i as int);
                lemma_record_is_found(records(table@), i as int);
            }
            return Some((mapping.windows(), mapping.territory()));
        }
        assert(!wanted(records(table@)[i as int]));
        i += 1;
    }
    None
}

/// One row of a table that is stored flat: Windows zone, territory, IANA
/// zone.
pub type ZoneRow = (&'static str, &'static str, &'static str);

/// The records that a flat table stands for. Rows that follow one another
/// with the same Windows zone and territory are one record, whose IANA zones
/// are those of its rows, in the rows' order.
pub open spec fn grouped(rows: Seq<ZoneRow>) -> Seq<ZoneRecord>
    decreases rows.len(),
{
    if rows.len() == 0 {
        Seq::empty()
    } else {
        let before = grouped(rows.drop_last());
        let row = rows.last();
        if before.len() > 0 && before.last().foreign_name == row.0@ && before.last().territory_code
            == row.1@ {
            before.update(
                before.len() - 1,
                ZoneRecord { iana_names: before.last().iana_names.push(row.2@), ..before.last() },
            )
        } else {
            before.push(
                ZoneRecord { foreign_name: row.0@, territory_code: row.1@, iana_names: seq![row.2@] },
            )
        }
    }
}

/// The records of the table of Windows zones that the library holds.
pub open spec fn zone_table() -> Seq<ZoneRecord> {
    grouped(ZONE_ROWS@)
}

/// Every record that comes of grouping rows has an IANA zone.
pub proof fn lemma_grouped_is_complete(rows: Seq<ZoneRow>)
    ensures
        complete(grouped(rows)),
    decreases rows.len(),
{
    if rows.len() > 0 {
        lemma_grouped_is_complete(rows.drop_last());
    }
}

/// Groups the rows of a flat table into records.
pub fn group_rows(rows: &[ZoneRow]) -> (table: Vec<ZoneMapping>)
    ensures
        records(table@) == grouped(rows@),
{
    let mut table: Vec<ZoneMapping> = Vec::new();
    if rows.len() == 0 {
        assert(records(table@) =~= grouped(rows@));
        return table;
    }
    let mut windows = rows[0].0;
    let mut territory = rows[0].1;
    let mut names: Vec<&'static str> = Vec::new();
    names.push(rows[0].2);
    proof {
        assert(rows@.take(1).drop_last() =~= Seq::<ZoneRow>::empty());
        assert(grouped(rows@.take(1).drop_last()) =~= Seq::<ZoneRecord>::empty());
        assert(names_of(names@) =~= seq![rows@[0].2@]);
        assert(grouped(rows@.take(1)) =~= records(table@).push(
            ZoneRecord {
                foreign_name: windows@,
                territory_code: territory@,
                iana_names: names_of(names@),
            },
        ));
    }
    let mut i: usize = 1;
    while i < rows.len()
        invariant
            1 <= i <= rows@.len(),
            names@.len() > 0,
            grouped(rows@.take(i as int)) == records(table@).push(
                ZoneRecord {
                    foreign_name: windows@,
                    territory_code: territory@,
                    iana_names: names_of(names@),
                },
            ),
        decreases rows@.len() - i,
    {
        let row = rows[i];
        let ghost before = grouped(rows@.take(i as int));
        let ghost held = names_of(names@);
        proof {
            assert(rows@.take(i + 1).drop_last() =~= rows@.take(i as int));
            assert(rows@.take(i + 1).last() == row);
        }
        if str_eq(row.0, windows) && str_eq(row.1, territory) {
            names.push(row.2);
            proof {
                assert(names_of(names@) =~= held.push(row.2@));
                assert(grouped(rows@.take(i + 1)) =~= records(table@).push(
                    ZoneRecord {
                        foreign_name: windows@,
                        territory_code: territory@,
                        iana_names: names_of(names@),
                    },
                ));
            }
        } else {
            let ghost earlier = records(table@);
            table.push(ZoneMapping { windows, territory, iana: names });
            windows = row.0;
            territory = row.1;
            names = Vec::new();
            names.push(row.2);
            proof {
                assert(records(table@) =~= before);
                assert(names_of(names@) =~= seq![row.2@]);
            }
        }
        i += 1;
    }
    let ghost earlier = records(table@);
    table.push(ZoneMapping { windows, territory, iana: names });
    proof {
        assert(rows@.take(rows@.len() as int) =~= rows@);
        assert(records(table@) =~= grouped(rows@));
    }
    table
}

/// The table of Windows zones that the library holds, as records.
pub fn zone_mappings() -> (table: Vec<ZoneMapping>)
    ensures
        records(table@) == zone_table(),
{
    let rows = ZONE_ROWS;
    group_rows(rows.as_slice())
}

/// The rows that a query by Windows zone matches.
pub open spec fn row_for_foreign(foreign_name: Seq<char>, territory: Option<Seq<char>>) -> spec_fn(
    ZoneRow,
) -> bool {
    |row: ZoneRow| row.0@ == foreign_name && (territory is None || territory == Some(row.1@))
}

/// The rows that a query by IANA zone matches.
pub open spec fn row_for_iana(iana_name: Seq<char>) -> spec_fn(ZoneRow) -> bool {
    |row: ZoneRow| row.2@ == iana_name
}

/// The last record of a grouped table is that of the last row.
proof fn lemma_grouped_last(rows: Seq<ZoneRow>)
    requires
        rows.len() > 0,
    ensures
        grouped(rows).len() > 0,
        grouped(rows).last().foreign_name == rows.last().0@,
        grouped(rows).last().territory_code == rows.last().1@,
        grouped(rows).last().iana_names.len() > 0,
        grouped(rows).last().iana_names.last() == rows.last().2@,
{
}

/// Where a query by Windows zone matches no row, it matches no record.
proof fn lemma_no_row_for_foreign(rows: Seq<ZoneRow>, foreign_name: Seq<char>, territory: Option<Seq<char>>)
    requires
        forall|i: int| 0 <= i < rows.len() ==> !row_for_foreign(foreign_name, territory)(#[trigger] rows[i]),
    ensures
        forall|k: int|
            0 <= k < grouped(rows).len() ==> !for_foreign(foreign_name, territory)(
                #[trigger] grouped(rows)[k],
            ),
    decreases rows.len(),
{
    if rows.len() > 0 {
        let before = rows.drop_last();
        assert forall|i: int| 0 <= i < before.len() implies !row_for_foreign(foreign_name, territory)(
            #[trigger] before[i],
        ) by {
            assert(before[i] == rows[i]);
        }
        lemma_no_row_for_foreign(before, foreign_name, territory);
        assert(!row_for_foreign(foreign_name, territory)(rows[rows.len() - 1]));
        assert forall|k: int| 0 <= k < grouped(rows).len() implies !for_foreign(foreign_name, territory)(
            #[trigger] grouped(rows)[k],
        ) by {
            if k < grouped(before).len() {
                assert(!for_foreign(foreign_name, territory)(grouped(before)[k]));
            }
        }
    }
}

/// The first row that a query by Windows zone matches is the first row of
/// the first record that the query matches.
proof fn lemma_first_row_for_foreign(
    rows: Seq<ZoneRow>,
    foreign_name: Seq<char>,
    territory: Option<Seq<char>>,
    at: int,
)
    requires
        is_first_where(rows, row_for_foreign(foreign_name, territory), at),
    ensures
        exists|k: int|
            is_first_where(grouped(rows), for_foreign(foreign_name, territory), k) && (#[trigger] grouped(
                rows,
            )[k]).iana_names[0] == rows[at].2@,
    decreases rows.len(),
{
    let row_wanted = row_for_foreign(foreign_name, territory);
    let wanted = for_foreign(foreign_name, territory);
    let before = rows.drop_last();
    let table = grouped(rows);
    let earlier = grouped(before);
    lemma_grouped_is_complete(before);
    assert forall|i: int| 0 <= i < before.len() implies before[i] == rows[i] by {}
    if at < rows.len() - 1 {
        assert(is_first_where(before, row_wanted, at));
        lemma_first_row_for_foreign(before, foreign_name, territory, at);
        let k = choose|k: int|
            is_first_where(earlier, wanted, k) && (#[trigger] earlier[k]).iana_names[0] == before[at].2@;
        assert forall|j: int| 0 <= j < k implies !wanted(#[trigger] table[j]) by {
            assert(!wanted(earlier[j]));
        }
        assert(wanted(earlier[k]));
        assert(earlier[k].iana_names.len() > 0);
        assert(is_first_where(table, wanted, k));
        assert(table[k].iana_names[0] == rows[at].2@);
    } else {
        lemma_no_row_for_foreign(before, foreign_name, territory);
        assert(row_wanted(rows[at]));
        if before.len() > 0 {
            lemma_grouped_last(before);
            assert(!wanted(earlier[earlier.len() - 1]));
        }
        let k = earlier.len() as int;
        assert(table == earlier.push(
            ZoneRecord {
                foreign_name: rows[at].0@,
                territory_code: rows[at].1@,
                iana_names: seq![rows[at].2@],
            },
        ));
        assert forall|j: int| 0 <= j < k implies !wanted(#[trigger] table[j]) by {
            assert(!wanted(earlier[j]));
        }
        assert(is_first_where(table, wanted, k));
        assert(table[k].iana_names[0] == rows[at].2@);
    }
}

/// Where a query by IANA zone matches no row, it matches no record.
proof fn lemma_no_row_for_iana(rows: Seq<ZoneRow>, iana_name: Seq<char>)
    requires
        forall|i: int| 0 <= i < rows.len() ==> !row_for_iana(iana_name)(#[trigger] rows[i]),
    ensures
        forall|k: int| 0 <= k < grouped(rows).len() ==> !for_iana(iana_name)(#[trigger] grouped(rows)[k]),
    decreases rows.len(),
{
    if rows.len() > 0 {
        let before = rows.drop_last();
        assert forall|i: int| 0 <= i < before.len() implies !row_for_iana(iana_name)(
            #[trigger] before[i],
        ) by {
            assert(before[i] == rows[i]);
        }
        lemma_no_row_for_iana(before, iana_name);
        assert(!row_for_iana(iana_name)(rows[rows.len() - 1]));
        assert forall|k: int| 0 <= k < grouped(rows).len() implies !for_iana(iana_name)(
            #[trigger] grouped(rows)[k],
        ) by {
            if k < grouped(before).len() {
                assert(!for_iana(iana_name)(grouped(before)[k]));
            }
            if for_iana(iana_name)(grouped(rows)[k]) {
                let names = grouped(rows)[k].iana_names;
                let n = choose|n: int| 0 <= n < names.len() && names[n] == iana_name;
                if k < grouped(before).len() {
                    let old_names = grouped(before)[k].iana_names;
                    if n < old_names.len() {
                        assert(old_names[n] == iana_name);
                        assert(old_names.contains(iana_name));
                    }
                }
            }
        }
    }
}

/// The first row that a query by IANA zone matches belongs to the first
/// record that the query matches.
proof fn lemma_first_row_for_iana(rows: Seq<ZoneRow>, iana_name: Seq<char>, at: int)
    requires
        is_first_where(rows, row_for_iana(iana_name), at),
    ensures
        exists|k: int|
            {
                &&& is_first_where(grouped(rows), for_iana(iana_name), k)
                &&& (#[trigger] grouped(rows)[k]).foreign_name == rows[at].0@
                &&& grouped(rows)[k].territory_code == rows[at].1@
            },
    decreases rows.len(),
{
    let row_wanted = row_for_iana(iana_name);
    let wanted = for_iana(iana_name);
    let before = rows.drop_last();
    let table = grouped(rows);
    let earlier = grouped(before);
    assert forall|i: int| 0 <= i < before.len() implies before[i] == rows[i] by {}
    if at < rows.len() - 1 {
        assert(is_first_where(before, row_wanted, at));
        lemma_first_row_for_iana(before, iana_name, at);
        let k = choose|k: int|
            {
                &&& is_first_where(earlier, wanted, k)
                &&& (#[trigger] earlier[k]).foreign_name == before[at].0@
                &&& earlier[k].territory_code == before[at].1@
            };
        assert forall|j: int| 0 <= j < k implies !wanted(#[trigger] table[j]) by {
            assert(!wanted(earlier[j]));
        }
        assert(wanted(earlier[k]));
        let n = choose|n: int| 0 <= n < earlier[k].iana_names.len() && earlier[k].iana_names[n] == iana_name;
        assert(table[k].iana_names[n] == iana_name);
        assert(wanted(table[k]));
        assert(is_first_where(table, wanted, k));
    } else {
        lemma_no_row_for_iana(before, iana_name);
        assert(row_wanted(rows[at]));
        let k = table.len() - 1;
        lemma_grouped_last(rows);
        assert(table[k].iana_names[table[k].iana_names.len() - 1] == iana_name);
        assert(wanted(table[k]));
        assert forall|j: int| 0 <= j < k implies !wanted(#[trigger] table[j]) by {
            assert(!wanted(earlier[j]));
        }
        assert(is_first_where(table, wanted, k));
    }
}

/// A flat table answers as its records do. The zone of the first row that
/// a query by Windows zone matches is what the records give for the query.
pub proof fn lemma_rows_forward(
    rows: Seq<ZoneRow>,
    foreign_name: Seq<char>,
    territory: Option<Seq<char>>,
    at: int,
)
    requires
        is_first_where(rows, row_for_foreign(foreign_name, territory), at),
    ensures
        canonical_iana(grouped(rows), foreign_name, territory) == Some(rows[at].2@),
{
    lemma_first_row_for_foreign(rows, foreign_name, territory, at);
    let wanted = for_foreign(foreign_name, territory);
    let k = choose|k: int|
        is_first_where(grouped(rows), wanted, k) && (#[trigger] grouped(rows)[k]).iana_names[0]
            == rows[at].2@;
    lemma_first_where(grouped(rows), wanted, k);
}

/// Where a query by Windows zone matches no row, the records give nothing.
pub proof fn lemma_rows_forward_none(rows: Seq<ZoneRow>, foreign_name: Seq<char>, territory: Option<Seq<char>>)
    requires
        forall|i: int| 0 <= i < rows.len() ==> !row_for_foreign(foreign_name, territory)(#[trigger] rows[i]),
    ensures
        canonical_iana(grouped(rows), foreign_name, territory) is None,
{
    lemma_no_row_for_foreign(rows, foreign_name, territory);
}

/// A flat table answers as its records do. The Windows zone and territory
/// of the first row that holds an IANA zone are what the records give for
/// that zone.
pub proof fn lemma_rows_reverse(rows: Seq<ZoneRow>, iana_name: Seq<char>, at: int)
    requires
        is_first_where(rows, row_for_iana(iana_name), at),
    ensures
        foreign_of(grouped(rows), iana_name) == Some((rows[at].0@, rows[at].1@)),
{
    lemma_first_row_for_iana(rows, iana_name, at);
    let wanted = for_iana(iana_name);
    let k = choose|k: int|
        {
            &&& is_first_where(grouped(rows), wanted, k)
            &&& (#[trigger] grouped(rows)[k]).foreign_name == rows[at].0@
            &&& grouped(rows)[k].territory_code == rows[at].1@
        };
    lemma_first_where(grouped(rows), wanted, k);
}

/// Where no row holds an IANA zone, the records give nothing for it.
pub proof fn lemma_rows_reverse_none(rows: Seq<ZoneRow>, iana_name: Seq<char>)
    requires
        forall|i: int| 0 <= i < rows.len() ==> !row_for_iana(iana_name)(#[trigger] rows[i]),
    ensures
        foreign_of(grouped(rows), iana_name) is None,
{
    lemma_no_row_for_iana(rows, iana_name);
}

/// Every row is found, in both directions. The reverse lookup finds a
/// Windows zone for the row's IANA zone, and the forward lookup finds an IANA
/// zone for the row's Windows zone, with the row's territory and without
/// one. What is found need not be the row itself: an earlier record wins.
pub proof fn lemma_row_is_found(rows: Seq<ZoneRow>, at: int)
    requires
        0 <= at < rows.len(),
    ensures
        foreign_of(grouped(rows), rows[at].2@) is Some,
        canonical_iana(grouped(rows), rows[at].0@, Some(rows[at].1@)) is Some,
        canonical_iana(grouped(rows), rows[at].0@, None) is Some,
{
    let by_iana = row_for_iana(rows[at].2@);
    assert(by_iana(rows[at]));
    lemma_some_where(rows, by_iana, at);
    let first = choose|first: int| 0 <= first <= at && is_first_where(rows, by_iana, first);
    lemma_rows_reverse(rows, rows[at].2@, first);

    let exact = row_for_foreign(rows[at].0@, Some(rows[at].1@));
    assert(exact(rows[at]));
    lemma_some_where(rows, exact, at);
    let first_exact = choose|first: int| 0 <= first <= at && is_first_where(rows, exact, first);
    lemma_rows_forward(rows, rows[at].0@, Some(rows[at].1@), first_exact);

    let any = row_for_foreign(rows[at].0@, None);
    assert(any(rows[at]));
    lemma_some_where(rows, any, at);
    let first_any = choose|first: int| 0 <= first <= at && is_first_where(rows, any, first);
    lemma_rows_forward(rows, rows[at].0@, None, first_any);
}

/// Every record of the library's table has an IANA zone.
pub proof fn lemma_zone_table_is_complete()
    ensures
        complete(zone_table()),
{
    lemma_grouped_is_complete(ZONE_ROWS@);
}

/// Looks up the IANA zone of a Windows zone in a flat table, without
/// building its records.
pub fn foreign_to_iana_in_rows(rows: &[ZoneRow], foreign_name: &str, territory: Option<&str>) -> (r: Option<
    &'static str,
>)
    ensures
        view_of(r) == canonical_iana(grouped(rows@), foreign_name@, view_of(territory)),
        r matches Some(iana) ==> foreign_of(grouped(rows@), iana@) is Some,
{
    let ghost row_wanted = row_for_foreign(foreign_name@, view_of(territory));
    let mut i: usize = 0;
    while i < rows.len()
        invariant
            i <= rows@.len(),
            row_wanted == row_for_foreign(foreign_name@, view_of(territory)),
            forall|k: int| 0 <= k < i ==> !row_wanted(#[trigger] rows@[k]),
        decreases rows@.len() - i,
    {
        let row = rows[i];
        let same_territory = match territory {
            None => true,
            Some(code) => str_eq(row.1, code),
        };
        if same_territory && str_eq(row.0, foreign_name) {
            proof {
                assert(row_wanted(rows@[i as int]));
                lemma_rows_forward(rows@, foreign_name@, view_of(territory), i as int);
                lemma_row_is_found(rows@, i as int);
            }
            return Some(row.2);
        }
        assert(!row_wanted(rows@[i as int]));
        i += 1;
    }
    proof {
        lemma_rows_forward_none(rows@, foreign_name@, view_of(territory));
    }
    None
}

/// Looks up the Windows zone and the territory of an IANA zone in a flat
/// table, without building its records.
pub fn iana_to_foreign_in_rows(rows: &[ZoneRow], iana_name: &str) -> (r: Option<(&'static str, &'static str)>)
    ensures
        pair_of(r) == foreign_of(grouped(rows@), iana_name@),
        r matches Some((windows, territory)) ==> {
            &&& canonical_iana(grouped(rows@), windows@, Some(territory@)) is Some
            &&& canonical_iana(grouped(rows@), windows@, None) is Some
        },
{
    let ghost row_wanted = row_for_iana(iana_name@);
    let mut i: usize = 0;
    while i < rows.len()
        invariant
            i <= rows@.len(),
            row_wanted == row_for_iana(iana_name@),
            forall|k: int| 0 <= k < i ==> !row_wanted(#[trigger] rows@[k]),
        decreases rows@.len() - i,
    {
        let row = rows[i];
        if str_eq(row.2, iana_name) {
            proof {
                assert(row_wanted(rows@[i as int]));
                lemma_rows_reverse(rows@, iana_name@, i as int);
                lemma_row_is_found(rows@, i as int);
            }
            return Some((row.0, row.1));
        }
        assert(!row_wanted(rows@[i as int]));
        i += 1;
    }
    proof {
        lemma_rows_reverse_none(rows@, iana_name@);
    }
    None
}

/// Given the name of a Windows zone and, where wanted, a territory code,
/// returns the IANA zone that the library's table gives for them.
pub fn win_zone_to_iana(zone: &str, territory: Option<&str>) -> (r: Option<&'static str>)
    ensures
        view_of(r) == canonical_iana(zone_table(), zone@, view_of(territory)),
        r matches Some(iana) ==> foreign_of(zone_table(), iana@) is Some,
{
    let rows = ZONE_ROWS;
    foreign_to_iana_in_rows(rows.as_slice(), zone, territory)
}

/// Looks up the Windows zone of an IANA zone in the library's table. The
/// answer is the Windows zone's name and the territory code.
pub fn iana_to_win_zone(zone: &str) -> (r: Option<(&'static str, &'static str)>)
    ensures
        pair_of(r) == foreign_of(zone_table(), zone@),
        r matches Some((windows, territory)) ==> {
            &&& canonical_iana(zone_table(), windows@, Some(territory@)) is Some
            &&& canonical_iana(zone_table(), windows@, None) is Some
        },
{
    let rows = ZONE_ROWS;
    iana_to_foreign_in_rows(rows.as_slice(), zone)
}

/// Whether `at` is where the text of a buffer ends: at its first unit that
/// is zero, or at its end if none is.
pub open spec fn is_text_end(units: Seq<u16>, at: int) -> bool {
    &&& 0 <= at <= units.len()
    &&& forall|k: int| 0 <= k < at ==> #[trigger] units[k] != 0
    &&& at < units.len() ==> units[at] == 0
}

/// The units of a buffer that stand before its first zero.
pub open spec fn until_nul(units: Seq<u16>) -> Seq<u16> {
    units.take(choose|at: int| is_text_end(units, at))
}

/// The text of a buffer ends at one index only.
pub proof fn lemma_text_end(units: Seq<u16>, at: int)
    requires
        is_text_end(units, at),
    ensures
        until_nul(units) == units.take(at),
{
    let found = choose|at: int| is_text_end(units, at);
    assert(is_text_end(units, found));
    if found < at {
        assert(units[found] != 0);
    }
    if at < found {
        assert(units[at] != 0);
    }
}

/// Whether `unit` is the first half of a surrogate pair.
pub open spec fn is_high_surrogate(unit: u16) -> bool {
    0xd800 <= unit <= 0xdbff
}

/// Whether `unit` is the second half of a surrogate pair.
pub open spec fn is_low_surrogate(unit: u16) -> bool {
    0xdc00 <= unit <= 0xdfff
}

/// The character that a surrogate pair stands for.
pub open spec fn paired(high: u16, low: u16) -> char {
    (0x10000 + (high - 0xd800) * 0x400 + (low - 0xdc00)) as char
}

/// The text that a sequence of UTF-16 code units stands for, with U+FFFD in
/// the place of each surrogate that has no partner. A unit that is no
/// surrogate is a character by itself, a high surrogate with a low one behind
/// it is one character, and every other surrogate is replaced.
pub open spec fn utf16_lossy(units: Seq<u16>) -> Seq<char>
    decreases units.len(),
{
    if units.len() == 0 {
        Seq::empty()
    } else if !is_high_surrogate(units[0]) && !is_low_surrogate(units[0]) {
        seq![units[0] as char] + utf16_lossy(units.skip(1))
    } else if is_high_surrogate(units[0]) && units.len() > 1 && is_low_surrogate(units[1]) {
        seq![paired(units[0], units[1])] + utf16_lossy(units.skip(2))
    } else {
        seq!['\u{fffd}'] + utf16_lossy(units.skip(1))
    }
}

/// Units without a surrogate among them are decoded one for one.
pub proof fn lemma_plain_units_decode(units: Seq<u16>)
    requires
        forall|i: int|
            0 <= i < units.len() ==> !is_high_surrogate(#[trigger] units[i]) && !is_low_surrogate(units[i]),
    ensures
        utf16_lossy(units) == Seq::new(units.len(), |i: int| units[i] as char),
    decreases units.len(),
{
    if units.len() > 0 {
        let rest = units.skip(1);
        assert forall|i: int| 0 <= i < rest.len() implies !is_high_surrogate(#[trigger] rest[i])
            && !is_low_surrogate(rest[i]) by {
            assert(rest[i] == units[i + 1]);
        }
        lemma_plain_units_decode(rest);
        assert(utf16_lossy(units) =~= Seq::new(units.len(), |i: int| units[i] as char));
    } else {
        assert(utf16_lossy(units) =~= Seq::new(units.len(), |i: int| units[i] as char));
    }
}

/// Calls `String::from_utf16_lossy`, which decodes UTF-16 and puts U+FFFD in
/// the place of what is no valid UTF-16: of each surrogate without a partner.
#[verifier::external_body]
fn decode_utf16_lossy(units: &[u16]) -> (text: String)
    ensures
        text@ == utf16_lossy(units@),
{
    String::from_utf16_lossy(units)
}

/// The text of a buffer of UTF-16 code units that ends at the first zero, or
/// fills the buffer.
pub fn string_from_utf16(wide: &[u16]) -> (text: String)
    ensures
        text@ == utf16_lossy(until_nul(wide@)),
{
    let mut end: usize = 0;
    while end < wide.len() && wide[end] != 0
        invariant
            end <= wide@.len(),
            forall|k: int| 0 <= k < end ==> #[trigger] wide@[k] != 0,
        decreases wide@.len() - end,
    {
        end += 1;
    }
    proof {
        lemma_text_end(wide@, end as int);
    }
    decode_utf16_lossy(slice_subrange(wide, 0, end))
}

/// The zone of a Windows host that answered the query for its time zone with
/// `status` and the standard name `standard_name`: the system knows its zone
/// when the status is 0, 1 or 2, and the zone is what the table gives for the
/// name, whatever the territory.
pub open spec fn reported_zone(status: u32, standard_name: Seq<u16>) -> Option<Seq<char>> {
    if status <= 2 {
        canonical_iana(zone_table(), utf16_lossy(until_nul(standard_name)), None)
    } else {
        None
    }
}

/// Finds the zone of a Windows host from what the system's query for its
/// time zone gave: the status that the query returned, and the buffer that
/// holds the standard name.
pub fn get_local_zone(status: u32, standard_name: &[u16]) -> (r: Option<String>)
    ensures
        text_of(r) == reported_zone(status, standard_name@),
{
    if status <= 2 {
        let zone = string_from_utf16(standard_name);
        match win_zone_to_iana(zone.as_str(), None) {
            Some(name) => Some(name.to_owned()),
            None => None,
        }
    } else {
        None
    }
}

} // verus!
