use vstd::prelude::*;

use crate::sdo_geometry::SdoGeometry;
use crate::style::{stroke_for_count, stroke_spec};
use crate::style::Stroke;

verus! {

/// A submission that is rejected before any fetch is attempted: the query
/// name is blank, or a query of that name already exists.
#[derive(Clone, Copy, PartialEq, Eq, Structural, Debug)]
pub enum ValidationError {
    EmptyName,
    DuplicateName,
}

/// What the user is currently typing into the query window: the SQL text,
/// the query name, and the inline message shown under the form.
#[derive(Clone, Debug)]
pub struct InputQuery {
    pub sql: String,
    pub name: String,
    pub message: String,
}

impl Default for InputQuery {
    /// A fresh input form: a small example query, no name, no message.
    fn default() -> (r: Self)
        ensures
            r.sql@ == "-- A very simple example\nSELECT\n\tGEOMETRY\nFROM\n\tBUILDINGS\n"@,
            r.name@.len() == 0,
            r.message@.len() == 0,
    {
        InputQuery {
            sql: String::from_str("-- A very simple example\nSELECT\n\tGEOMETRY\nFROM\n\tBUILDINGS\n"),
            name: String::new(),
            message: String::new(),
        }
    }
}

impl InputQuery {
    /// Empties the SQL text and the name; the message is left alone.
    pub fn clear(&mut self)
        ensures
            final(self).sql@.len() == 0,
            final(self).name@.len() == 0,
            final(self).message == old(self).message,
    {
        self.sql = String::new();
        self.name = String::new();
    }
}

/// One geometry record under a query: its automatic display name, the record
/// itself, and whether it is currently drawn.
#[derive(Clone, Debug)]
pub struct Geometry {
    pub name: String,
    pub sdo_geometry: SdoGeometry,
    pub is_active: bool,
}

/// A successfully submitted query: the SQL text it was made with, the stroke
/// all its shapes are drawn with, and the records it fetched.
#[derive(Clone, Debug)]
pub struct Query {
    pub sql: String,
    pub stroke: Stroke,
    pub geometries: Vec<Geometry>,
}

/// The decimal digit `d` as a character.
pub open spec fn digit_char(d: int) -> char {
    if d == 0 {
        '0'
    } else if d == 1 {
        '1'
    } else if d == 2 {
        '2'
    } else if d == 3 {
        '3'
    } else if d == 4 {
        '4'
    } else if d == 5 {
        '5'
    } else if d == 6 {
        '6'
    } else if d == 7 {
        '7'
    } else if d == 8 {
        '8'
    } else {
        '9'
    }
}

/// The decimal digits of `n`, most significant first, no leading zeros
/// (except for `n == 0` itself).
pub open spec fn decimal_chars(n: nat) -> Seq<char>
    decreases n,
{
    if n < 10 {
        seq![digit_char(n as int)]
    } else {
        decimal_chars(n / 10).push(digit_char((n % 10) as int))
    }
}

/// The automatic display name of the `i`-th geometry fetched for a query
/// named `base`: the base name, an underscore, and `i` in decimal.
pub open spec fn auto_name_spec(base: Seq<char>, i: nat) -> Seq<char> {
    base + "_"@ + decimal_chars(i)
}

fn digit_str(d: usize) -> (r: &'static str)
    requires
        d < 10,
    ensures
        r@ =~= seq![digit_char(d as int)],
{
    proof {
        reveal_strlit("0");
        reveal_strlit("1");
        reveal_strlit("2");
        reveal_strlit("3");
        reveal_strlit("4");
        reveal_strlit("5");
        reveal_strlit("6");
        reveal_strlit("7");
        reveal_strlit("8");
        reveal_strlit("9");
    }
    match d {
        0 => "0",
        1 => "1",
        2 => "2",
        3 => "3",
        4 => "4",
        5 => "5",
        6 => "6",
        7 => "7",
        8 => "8",
        _ => "9",
    }
}

/// Renders `n` in decimal.
pub fn decimal_string(n: usize) -> (r: String)
    ensures
        r@ == decimal_chars(n as nat),
    decreases n,
{
    if n < 10 {
        String::from_str(digit_str(n))
    } else {
        let mut s = decimal_string(n / 10);
        s.append(digit_str(n % 10));
        proof {
            assert(s@ =~= decimal_chars(n as nat));
        }
        s
    }
}

/// Builds the automatic display name `"{base}_{i}"`.
pub fn auto_name(base: &String, i: usize) -> (r: String)
    ensures
        r@ == auto_name_spec(base@, i as nat),
{
    let mut s = String::from_str(base.as_str());
    s.append("_");
    let d = decimal_string(i);
    s.append(d.as_str());
    proof {
        assert(s@ =~= auto_name_spec(base@, i as nat));
    }
    s
}

/// Turns fetched records into named geometries: the `j`-th record becomes
/// `"{name}_{j}"`, initially visible.
fn build_geometries(name: &String, records: Vec<SdoGeometry>) -> (r: Vec<Geometry>)
    ensures
        r@.len() == records@.len(),
        forall|j: int| 0 <= j < records@.len() ==> {
            &&& r@[j].sdo_geometry == records@[j]
            &&& r@[j].is_active
            &&& r@[j].name@ == auto_name_spec(name@, j as nat)
        },
{
    let ghost orig: Seq<SdoGeometry> = records@;
    let mut records = records;
    let n = records.len();
    let mut geometries: Vec<Geometry> = Vec::new();
    let mut i: usize = 0;
    while i < n
        invariant
            n == orig.len(),
            i <= n,
            records@ == orig.skip(i as int),
            geometries@.len() == i,
            forall|j: int| 0 <= j < i ==> {
                &&& geometries@[j].sdo_geometry == orig[j]
                &&& geometries@[j].is_active
                &&& geometries@[j].name@ == auto_name_spec(name@, j as nat)
            },
        decreases n - i,
    {
        let g = records.remove(0);
        let gname = auto_name(name, i);
        geometries.push(Geometry { name: gname, sdo_geometry: g, is_active: true });
        i += 1;
        proof {
            assert(records@ =~= orig.skip(i as int));
        }
    }
    geometries
}

/// Makes every geometry visible.
fn set_all_active(geoms: &mut Vec<Geometry>)
    ensures
        final(geoms)@.len() == old(geoms)@.len(),
        forall|j: int| 0 <= j < old(geoms)@.len() ==> {
            &&& final(geoms)@[j].name == old(geoms)@[j].name
            &&& final(geoms)@[j].sdo_geometry == old(geoms)@[j].sdo_geometry
            &&& final(geoms)@[j].is_active
        },
{
    let n = geoms.len();
    let mut g: usize = 0;
    while g < n
        invariant
            n == geoms@.len(),
            g <= n,
            geoms@.len() == old(geoms)@.len(),
            forall|j: int| 0 <= j < g ==> {
                &&& geoms@[j].name == old(geoms)@[j].name
                &&& geoms@[j].sdo_geometry == old(geoms)@[j].sdo_geometry
                &&& geoms@[j].is_active
            },
            forall|j: int| g <= j < n ==> geoms@[j] == old(geoms)@[j],
        decreases n - g,
    {
        geoms[g].is_active = true;
        g += 1;
    }
}

/// Sets the visibility flag of every geometry named `gname`; geometry names
/// are unique within a query, so at most one flag changes.
fn set_active_by_name(geoms: &mut Vec<Geometry>, gname: &String, active: bool)
    ensures
        final(geoms)@.len() == old(geoms)@.len(),
        forall|j: int| 0 <= j < old(geoms)@.len() ==> {
            &&& final(geoms)@[j].name == old(geoms)@[j].name
            &&& final(geoms)@[j].sdo_geometry == old(geoms)@[j].sdo_geometry
            &&& final(geoms)@[j].is_active == (if old(geoms)@[j].name@ == gname@ {
                active
            } else {
                old(geoms)@[j].is_active
            })
        },
{
    let n = geoms.len();
    let mut g: usize = 0;
    while g < n
        invariant
            n == geoms@.len(),
            g <= n,
            geoms@.len() == old(geoms)@.len(),
            forall|j: int| 0 <= j < g ==> {
                &&& geoms@[j].name == old(geoms)@[j].name
                &&& geoms@[j].sdo_geometry == old(geoms)@[j].sdo_geometry
                &&& geoms@[j].is_active == (if old(geoms)@[j].name@ == gname@ {
                    active
                } else {
                    old(geoms)@[j].is_active
                })
            },
            forall|j: int| g <= j < n ==> geoms@[j] == old(geoms)@[j],
        decreases n - g,
    {
        if geoms[g].name.eq(gname) {
            geoms[g].is_active = active;
        }
        g += 1;
    }
}

/// The set of submitted queries, keyed by their unique names, in insertion
/// order.
#[derive(Debug)]
pub struct QuerySet {
    entries: Vec<(String, Query)>,
}

impl View for QuerySet {
    type V = Seq<(String, Query)>;

    closed spec fn view(&self) -> Seq<(String, Query)> {
        self.entries@
    }
}

impl QuerySet {
    /// Whether some query is stored under `name`.
    pub open spec fn contains_name(&self, name: Seq<char>) -> bool {
        exists|i: int| 0 <= i < self@.len() && self@[i].0@ == name
    }

    /// Names are unique: no two stored queries share one.
    pub open spec fn wf(&self) -> bool {
        forall|i: int, j: int| 0 <= i < j < self@.len() ==> self@[i].0@ != self@[j].0@
    }

    /// The position of the query stored under `name` (meaningful only when
    /// `contains_name` holds; unique whenever `wf` holds).
    pub open spec fn index_of(&self, name: Seq<char>) -> int {
        choose|i: int| 0 <= i < self@.len() && self@[i].0@ == name
    }

    /// An empty query set.
    pub fn new() -> (r: QuerySet)
        ensures
            r@.len() == 0,
            r.wf(),
    {
        QuerySet { entries: Vec::new() }
    }

    /// How many queries are stored.
    pub fn len(&self) -> (n: usize)
        ensures
            n == self@.len(),
    {
        self.entries.len()
    }

    fn find_index(&self, name: &String) -> (r: Option<usize>)
        ensures
            r matches Some(i) ==> i < self@.len() && self@[i as int].0@ == name@,
            r is None <==> !self.contains_name(name@),
    {
        let n = self.entries.len();
        let mut i: usize = 0;
        while i < n
            invariant
                n == self@.len(),
                i <= n,
                forall|j: int| 0 <= j < i ==> self@[j].0@ != name@,
            decreases n - i,
        {
            if self.entries[i].0.eq(name) {
                return Some(i);
            }
            i += 1;
        }
        None
    }

    /// Whether a query named `name` exists.
    pub fn contains(&self, name: &String) -> (b: bool)
        ensures
            b == self.contains_name(name@),
    {
        self.find_index(name).is_some()
    }

    /// The query stored under `name`, if any.
    pub fn get(&self, name: &String) -> (r: Option<&Query>)
        ensures
            r matches Some(q) ==> exists|i: int|
                0 <= i < self@.len() && self@[i].0@ == name@ && self@[i].1 == *q,
            r is None <==> !self.contains_name(name@),
    {
        match self.find_index(name) {
            Some(i) => Some(&self.entries[i].1),
            None => None,
        }
    }

    /// The `i`-th stored name and query, in insertion order.
    pub fn get_at(&self, i: usize) -> (r: &(String, Query))
        requires
            i < self@.len(),
        ensures
            *r == self@[i as int],
    {
        &self.entries[i]
    }

    /// Replaces the stroke of the query stored under `name`; everything else
    /// is untouched. An absent name is a no-op.
    pub fn set_stroke(&mut self, name: &String, stroke: Stroke)
        requires
            old(self).wf(),
        ensures
            final(self).wf(),
            final(self)@.len() == old(self)@.len(),
            !old(self).contains_name(name@) ==> final(self)@ == old(self)@,
            old(self).contains_name(name@) ==> {
                let k = old(self).index_of(name@);
                &&& (forall|j: int|
                    0 <= j < old(self)@.len() && j != k ==> final(self)@[j] == old(self)@[j])
                &&& final(self)@[k].0 == old(self)@[k].0
                &&& final(self)@[k].1.sql == old(self)@[k].1.sql
                &&& final(self)@[k].1.stroke == stroke
                &&& final(self)@[k].1.geometries == old(self)@[k].1.geometries
            },
    {
        match self.find_index(name) {
            Some(i) => {
                proof {
                    let k = old(self).index_of(name@);
                    assert(0 <= k < old(self)@.len() && old(self)@[k].0@ == name@);
                    assert(k == i);
                }
                self.entries[i].1.stroke = stroke;
                proof {
                    self.lemma_wf_after_entry_update(*old(self), i as int);
                }
            },
            None => {},
        }
    }

    /// Checks a proposed submission without touching anything: a blank name
    /// is rejected, then a name already present is rejected.
    pub fn validate_name(&self, name: &String) -> (r: Result<(), ValidationError>)
        ensures
            name@.len() == 0 ==> (r matches Err(e) && e == ValidationError::EmptyName),
            name@.len() > 0 && self.contains_name(name@) ==> (r matches Err(e) && e
                == ValidationError::DuplicateName),
            r is Ok <==> (name@.len() > 0 && !self.contains_name(name@)),
    {
        if name.as_str().is_empty() {
            return Err(ValidationError::EmptyName);
        }
        if self.contains(name) {
            return Err(ValidationError::DuplicateName);
        }
        Ok(())
    }

    /// Inserts the outcome of a submission. The name is validated again: a
    /// blank or duplicate name changes nothing and reports why. Otherwise the
    /// fetched records become geometries named `"{name}_{index}"`, all
    /// initially visible, the stroke colour is cycled from the palette by the
    /// current query count, and the new query is appended.
    pub fn submit(&mut self, name: String, sql: String, records: Vec<SdoGeometry>) -> (r: Result<
        (),
        ValidationError,
    >)
        requires
            old(self).wf(),
        ensures
            final(self).wf(),
            name@.len() == 0 ==> (r matches Err(e) && e == ValidationError::EmptyName),
            name@.len() > 0 && old(self).contains_name(name@) ==> (r matches Err(e) && e
                == ValidationError::DuplicateName),
            r is Err ==> final(self)@ == old(self)@,
            r is Ok <==> (name@.len() > 0 && !old(self).contains_name(name@)),
            r is Ok ==> {
                &&& final(self)@.len() == old(self)@.len() + 1
                &&& final(self)@.subrange(0, old(self)@.len() as int) == old(self)@
                &&& final(self)@.last().0@ == name@
                &&& final(self)@.last().1.sql == sql
                &&& final(self)@.last().1.stroke == stroke_spec(old(self)@.len() as int)
                &&& final(self)@.last().1.geometries@.len() == records@.len()
                &&& forall|j: int| 0 <= j < records@.len() ==> {
                    &&& final(self)@.last().1.geometries@[j].sdo_geometry == records@[j]
                    &&& final(self)@.last().1.geometries@[j].is_active
                    &&& final(self)@.last().1.geometries@[j].name@ == auto_name_spec(name@, j as nat)
                }
            },
    {
        match self.validate_name(&name) {
            Err(e) => Err(e),
            Ok(()) => {
                let geometries = build_geometries(&name, records);
                let stroke = stroke_for_count(self.entries.len());
                self.entries.push((name, Query { sql, stroke, geometries }));
                proof {
                    let news = final(self)@;
                    let olds = old(self)@;
                    assert(news.subrange(0, olds.len() as int) =~= olds);
                    assert forall|i: int, j: int| 0 <= i < j < news.len() implies news[i].0@
                        != news[j].0@ by {
                        if j < olds.len() {
                        } else {
                            assert(news[i] == olds[i]);
                        }
                    }
                }
                Ok(())
            },
        }
    }

    /// Deletes the query stored under `name`, keeping the order of the rest;
    /// an absent name is a no-op.
    pub fn remove(&mut self, name: &String)
        requires
            old(self).wf(),
        ensures
            final(self).wf(),
            !old(self).contains_name(name@) ==> final(self)@ == old(self)@,
            old(self).contains_name(name@) ==> {
                let k = old(self).index_of(name@);
                &&& 0 <= k < old(self)@.len()
                &&& old(self)@[k].0@ == name@
                &&& final(self)@ == old(self)@.remove(k)
            },
    {
        match self.find_index(name) {
            Some(i) => {
                self.entries.remove(i);
                proof {
                    let olds = old(self)@;
                    let k = old(self).index_of(name@);
                    assert(0 <= k < olds.len() && olds[k].0@ == name@);
                    assert(k == i);
                    olds.remove_ensures(k);
                }
            },
            None => {},
        }
    }

    /// Makes every geometry of the query stored under `name` visible; the
    /// rest of the query, and every other query, is untouched. An absent
    /// name is a no-op.
    pub fn toggle_all_visible(&mut self, name: &String)
        requires
            old(self).wf(),
        ensures
            final(self).wf(),
            final(self)@.len() == old(self)@.len(),
            !old(self).contains_name(name@) ==> final(self)@ == old(self)@,
            old(self).contains_name(name@) ==> {
                let k = old(self).index_of(name@);
                &&& (forall|j: int|
                    0 <= j < old(self)@.len() && j != k ==> final(self)@[j] == old(self)@[j])
                &&& final(self)@[k].0 == old(self)@[k].0
                &&& final(self)@[k].1.sql == old(self)@[k].1.sql
                &&& final(self)@[k].1.stroke == old(self)@[k].1.stroke
                &&& final(self)@[k].1.geometries@.len() == old(self)@[k].1.geometries@.len()
                &&& forall|g: int| 0 <= g < old(self)@[k].1.geometries@.len() ==> {
                    &&& final(self)@[k].1.geometries@[g].name == old(
                        self,
                    )@[k].1.geometries@[g].name
                    &&& final(self)@[k].1.geometries@[g].sdo_geometry == old(
                        self,
                    )@[k].1.geometries@[g].sdo_geometry
                    &&& final(self)@[k].1.geometries@[g].is_active
                }
            },
    {
        match self.find_index(name) {
            Some(i) => {
                proof {
                    let k = old(self).index_of(name@);
                    assert(0 <= k < old(self)@.len() && old(self)@[k].0@ == name@);
                    assert(k == i);
                }
                let mut entry = self.entries.remove(i);
                set_all_active(&mut entry.1.geometries);
                self.entries.insert(i, entry);
                proof {
                    self.lemma_wf_after_entry_update(*old(self), i as int);
                }
            },
            None => {},
        }
    }

    /// Sets the visibility flag of the geometry named `geometry_name` inside
    /// the query stored under `name`; everything else is untouched. An
    /// absent query name is a no-op, as is an absent geometry name.
    pub fn set_visible(&mut self, name: &String, geometry_name: &String, active: bool)
        requires
            old(self).wf(),
        ensures
            final(self).wf(),
            final(self)@.len() == old(self)@.len(),
            !old(self).contains_name(name@) ==> final(self)@ == old(self)@,
            old(self).contains_name(name@) ==> {
                let k = old(self).index_of(name@);
                &&& (forall|j: int|
                    0 <= j < old(self)@.len() && j != k ==> final(self)@[j] == old(self)@[j])
                &&& final(self)@[k].0 == old(self)@[k].0
                &&& final(self)@[k].1.sql == old(self)@[k].1.sql
                &&& final(self)@[k].1.stroke == old(self)@[k].1.stroke
                &&& final(self)@[k].1.geometries@.len() == old(self)@[k].1.geometries@.len()
                &&& forall|g: int| 0 <= g < old(self)@[k].1.geometries@.len() ==> {
                    &&& final(self)@[k].1.geometries@[g].name == old(
                        self,
                    )@[k].1.geometries@[g].name
                    &&& final(self)@[k].1.geometries@[g].sdo_geometry == old(
                        self,
                    )@[k].1.geometries@[g].sdo_geometry
                    &&& final(self)@[k].1.geometries@[g].is_active == (if old(
                        self,
                    )@[k].1.geometries@[g].name@ == geometry_name@ {
                        active
                    } else {
                        old(self)@[k].1.geometries@[g].is_active
                    })
                }
            },
    {
        match self.find_index(name) {
            Some(i) => {
                proof {
                    let k = old(self).index_of(name@);
                    assert(0 <= k < old(self)@.len() && old(self)@[k].0@ == name@);
                    assert(k == i);
                }
                let mut entry = self.entries.remove(i);
                set_active_by_name(&mut entry.1.geometries, geometry_name, active);
                self.entries.insert(i, entry);
                proof {
                    self.lemma_wf_after_entry_update(*old(self), i as int);
                }
            },
            None => {},
        }
    }

    /// After replacing the entry at `k` by one with the same name, the set
    /// is unchanged off `k` and names stay unique.
    proof fn lemma_wf_after_entry_update(&self, prev: QuerySet, k: int)
        requires
            prev.wf(),
            0 <= k < prev@.len(),
            self@.len() == prev@.len(),
            self@[k].0 == prev@[k].0,
            forall|j: int| 0 <= j < prev@.len() && j != k ==> self@[j] == prev@[j],
        ensures
            self.wf(),
    {
        assert forall|i: int, j: int| 0 <= i < j < self@.len() implies self@[i].0@
            != self@[j].0@ by {
            assert(self@[i].0 == prev@[i].0);
            assert(self@[j].0 == prev@[j].0);
        }
    }
}

} // verus!
