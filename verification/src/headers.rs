use vstd::prelude::*;

verus! {

/// ASCII lowercase of a byte: letters `A`..`Z` gain 32, everything
/// else is unchanged.
pub open spec fn lower_byte(b: u8) -> u8 {
    if 65 <= b && b <= 90 {
        (b + 32) as u8
    } else {
        b
    }
}

/// Case-insensitive equality of two header names, byte for byte.
pub open spec fn name_eq(a: Seq<u8>, b: Seq<u8>) -> bool {
    a.map_values(|x: u8| lower_byte(x)) == b.map_values(|x: u8| lower_byte(x))
}

/// The value of the first entry whose name equals `name`
/// case-insensitively, if any.
pub open spec fn header_lookup(entries: Seq<(Seq<u8>, Seq<u8>)>, name: Seq<u8>) -> Option<Seq<u8>>
    decreases entries.len(),
{
    if entries.len() == 0 {
        None
    } else if name_eq(entries[0].0, name) {
        Some(entries[0].1)
    } else {
        header_lookup(entries.skip(1), name)
    }
}

/// A missed lookup means no entry carries the name.
pub proof fn lemma_header_lookup_none(entries: Seq<(Seq<u8>, Seq<u8>)>, name: Seq<u8>)
    ensures
        header_lookup(entries, name) is None <==> (forall|i: int|
            0 <= i < entries.len() ==> !name_eq(entries[i].0, name)),
    decreases entries.len(),
{
    if entries.len() == 0 {
    } else {
        let rest = entries.skip(1);
        lemma_header_lookup_none(rest, name);
        if header_lookup(entries, name) is None {
            assert forall|i: int| 0 <= i < entries.len() implies !name_eq(entries[i].0, name) by {
                if i > 0 {
                    assert(rest[i - 1] == entries[i]);
                }
            }
        } else {
            if !name_eq(entries[0].0, name) {
                assert(header_lookup(rest, name) is Some);
                let j = choose|j: int| 0 <= j < rest.len() && name_eq(rest[j].0, name);
                assert(rest[j] == entries[j + 1]);
                assert(name_eq(entries[j + 1].0, name));
            }
        }
    }
}

fn lower_byte_exec(b: u8) -> (r: u8)
    ensures
        r == lower_byte(b),
{
    if 65 <= b && b <= 90 {
        b + 32
    } else {
        b
    }
}

/// Compare two header names, ignoring ASCII case.
fn bytes_name_eq(a: &[u8], b: &[u8]) -> (r: bool)
    ensures
        r == name_eq(a@, b@),
{
    let ghost la = a@.map_values(|x: u8| lower_byte(x));
    let ghost lb = b@.map_values(|x: u8| lower_byte(x));
    if a.len() != b.len() {
        proof {
            assert(la.len() != lb.len());
        }
        return false;
    }
    let mut i: usize = 0;
    while i < a.len()
        invariant
            a@.len() == b@.len(),
            0 <= i <= a@.len(),
            la == a@.map_values(|x: u8| lower_byte(x)),
            lb == b@.map_values(|x: u8| lower_byte(x)),
            forall|j: int| 0 <= j < i ==> la[j] == lb[j],
        decreases a.len() - i,
    {
        if lower_byte_exec(a[i]) != lower_byte_exec(b[i]) {
            proof {
                assert(la[i as int] != lb[i as int]);
            }
            return false;
        }
        i = i + 1;
    }
    proof {
        assert(la =~= lb);
    }
    true
}

/// The header mapping of an authority response: name-value pairs of
/// raw bytes, names unique up to ASCII case.
pub struct ResponseHeaders {
    entries: Vec<(Vec<u8>, Vec<u8>)>,
}

impl View for ResponseHeaders {
    type V = Seq<(Seq<u8>, Seq<u8>)>;

    closed spec fn view(&self) -> Seq<(Seq<u8>, Seq<u8>)> {
        self.entries@.map_values(|p: (Vec<u8>, Vec<u8>)| (p.0@, p.1@))
    }
}

impl ResponseHeaders {
    /// Names are pairwise distinct, ignoring ASCII case.
    pub open spec fn wf(&self) -> bool {
        forall|i: int, j: int|
            0 <= i < j < self@.len() ==> !name_eq(#[trigger] self@[i].0, #[trigger] self@[j].0)
    }

    pub fn new() -> (r: Self)
        ensures
            r@ =~= Seq::<(Seq<u8>, Seq<u8>)>::empty(),
            r.wf(),
    {
        ResponseHeaders { entries: Vec::new() }
    }

    /// Look the header `name` up, ignoring ASCII case.
    pub fn get(&self, name: &[u8]) -> (r: Option<&Vec<u8>>)
        ensures
            r matches Some(v) ==> header_lookup(self@, name@) == Some(v@),
            r is None ==> header_lookup(self@, name@) is None,
    {
        let mut i: usize = 0;
        proof {
            assert(self@.skip(0) =~= self@);
        }
        while i < self.entries.len()
            invariant
                0 <= i <= self.entries.len(),
                self@.len() == self.entries@.len(),
                header_lookup(self@, name@) == header_lookup(self@.skip(i as int), name@),
            decreases self.entries.len() - i,
        {
            proof {
                assert(self@.skip(i as int)[0] == self@[i as int]);
                assert(self@.skip(i as int).skip(1) =~= self@.skip(i + 1));
            }
            if bytes_name_eq(self.entries[i].0.as_slice(), name) {
                return Some(&self.entries[i].1);
            }
            i = i + 1;
        }
        proof {
            assert(self@.skip(i as int) =~= Seq::<(Seq<u8>, Seq<u8>)>::empty());
        }
        None
    }

    /// Add a header unless one of that name (ignoring ASCII case) is
    /// already present; says whether it was added.
    pub fn insert(&mut self, name: Vec<u8>, value: Vec<u8>) -> (added: bool)
        requires
            old(self).wf(),
        ensures
            final(self).wf(),
            added <==> header_lookup(old(self)@, name@) is None,
            added ==> final(self)@ =~= old(self)@.push((name@, value@)),
            !added ==> final(self)@ =~= old(self)@,
    {
        if self.get(name.as_slice()).is_some() {
            return false;
        }
        proof {
            lemma_header_lookup_none(self@, name@);
        }
        let ghost before = self.entries@;
        self.entries.push((name, value));
        proof {
            assert(self@ =~= before.map_values(|p: (Vec<u8>, Vec<u8>)| (p.0@, p.1@)).push(
                (self.entries@[before.len() as int].0@, self.entries@[before.len() as int].1@),
            ));
        }
        true
    }

    /// How many headers are held.
    pub fn len(&self) -> (n: usize)
        ensures
            n == self@.len(),
    {
        self.entries.len()
    }
}

} // verus!
