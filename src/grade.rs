use vstd::prelude::*;

verus! {

/// The largest grade-point value a letter grade can carry: 4.00 points.
pub const MAX_GRADE_POINTS: u32 = 400;

/// One letter grade and its value in hundredths of a grade point.
pub struct GradeEntry {
    pub symbol: String,
    pub points: u32,
}

/// A mapping from letter-grade symbols to grade-point values.
///
/// Entries are kept in the order they were added; a later entry for a symbol
/// takes precedence over an earlier one.
pub struct GradeTable {
    entries: Vec<GradeEntry>,
}

/// The value of `symbol` among the first `n` entries, the latest one winning.
pub open spec fn lookup_upto(entries: Seq<GradeEntry>, symbol: Seq<char>, n: nat) -> Option<nat>
    decreases n,
{
    if n == 0 {
        None
    } else if entries[n - 1].symbol@ == symbol {
        Some(entries[n - 1].points as nat)
    } else {
        lookup_upto(entries, symbol, (n - 1) as nat)
    }
}

/// Entries past the first `n` do not change a lookup among the first `n`.
proof fn lemma_lookup_upto_push(entries: Seq<GradeEntry>, e: GradeEntry, symbol: Seq<char>, n: nat)
    requires
        n <= entries.len(),
    ensures
        lookup_upto(entries.push(e), symbol, n) == lookup_upto(entries, symbol, n),
    decreases n,
{
    if n > 0 {
        lemma_lookup_upto_push(entries, e, symbol, (n - 1) as nat);
    }
}

impl View for GradeTable {
    type V = Map<Seq<char>, nat>;

    closed spec fn view(&self) -> Map<Seq<char>, nat> {
        Map::new(
            |k: Seq<char>| lookup_upto(self.entries@, k, self.entries@.len()) is Some,
            |k: Seq<char>| lookup_upto(self.entries@, k, self.entries@.len())->0,
        )
    }
}

/// Every value of the mapping lies within the grade-point scale.
pub open spec fn grades_in_scale(m: Map<Seq<char>, nat>) -> bool {
    forall|k: Seq<char>| #[trigger] m.contains_key(k) ==> m[k] <= MAX_GRADE_POINTS
}

impl GradeTable {
    /// A table with no grades.
    pub fn new() -> (r: GradeTable)
        ensures
            r@ == Map::<Seq<char>, nat>::empty(),
    {
        let r = GradeTable { entries: Vec::new() };
        assert(r@ =~= Map::<Seq<char>, nat>::empty());
        r
    }

    /// Maps `symbol` to `points`, replacing any earlier value of `symbol`.
    pub fn insert(&mut self, symbol: String, points: u32)
        ensures
            final(self)@ == old(self)@.insert(symbol@, points as nat),
    {
        let ghost old_entries = self.entries@;
        let ghost sym = symbol@;
        self.entries.push(GradeEntry { symbol, points });
        proof {
            assert(self.entries@ == old_entries.push(GradeEntry { symbol: self.entries@.last().symbol, points }));
            assert forall|k: Seq<char>|
                k != sym implies lookup_upto(self.entries@, k, self.entries@.len()) == lookup_upto(
                    old_entries,
                    k,
                    old_entries.len(),
                ) by {
                lemma_lookup_upto_push(old_entries, self.entries@.last(), k, old_entries.len());
            }
            assert(self@ =~= old(self)@.insert(sym, points as nat));
        }
    }

    /// The value of `symbol`, or `None` where the table does not hold it.
    pub fn lookup(&self, symbol: &String) -> (r: Option<u32>)
        ensures
            r is Some <==> self@.contains_key(symbol@),
            r is Some ==> r->0 as nat == self@[symbol@],
    {
        let mut i: usize = self.entries.len();
        while i > 0
            invariant
                i <= self.entries@.len(),
                lookup_upto(self.entries@, symbol@, self.entries@.len()) == lookup_upto(
                    self.entries@,
                    symbol@,
                    i as nat,
                ),
            decreases i,
        {
            if self.entries[i - 1].symbol == *symbol {
                return Some(self.entries[i - 1].points);
            }
            i = i - 1;
        }
        None
    }
}

/// The grade-point scale: each letter grade and its value in hundredths.
///
/// "P" (pass) is listed with no points; a passed course never enters the
/// grade-point average.
pub open spec fn letter_grades() -> Map<Seq<char>, nat> {
    Map::empty()
        .insert("A+"@, 400)
        .insert("A"@, 400)
        .insert("A-"@, 367)
        .insert("B+"@, 333)
        .insert("B"@, 300)
        .insert("B-"@, 267)
        .insert("C+"@, 233)
        .insert("C"@, 200)
        .insert("C-"@, 167)
        .insert("D+"@, 133)
        .insert("D"@, 100)
        .insert("D-"@, 67)
        .insert("F"@, 0)
        .insert("P"@, 0)
}

/// Builds the table of the grade-point scale.
pub fn construct_grade_map() -> (r: GradeTable)
    ensures
        r@ == letter_grades(),
        grades_in_scale(r@),
{
    let mut t = GradeTable::new();
    t.insert("A+".to_owned(), 400);
    t.insert("A".to_owned(), 400);
    t.insert("A-".to_owned(), 367);
    t.insert("B+".to_owned(), 333);
    t.insert("B".to_owned(), 300);
    t.insert("B-".to_owned(), 267);
    t.insert("C+".to_owned(), 233);
    t.insert("C".to_owned(), 200);
    t.insert("C-".to_owned(), 167);
    t.insert("D+".to_owned(), 133);
    t.insert("D".to_owned(), 100);
    t.insert("D-".to_owned(), 67);
    t.insert("F".to_owned(), 0);
    t.insert("P".to_owned(), 0);
    t
}

} // verus!
