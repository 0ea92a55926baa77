//! A program image: its bytes, its entry point and its named sections.
use vstd::prelude::*;

verus! {

/// Where a section lies: its load address, the bytes `beg..end` of the
/// image, and whether it is writable and executable.
#[derive(Copy, Clone, Debug, PartialEq, Eq, Structural)]
struct Section {
    sec_addr: u64,
    beg: usize,
    end: usize,
    writable: bool,
    executable: bool,
}

/// A section as seen in contracts: (address, begin, end, writable,
/// executable).
pub type SectionInfo = (u64, usize, usize, bool, bool);

spec fn info(s: Section) -> SectionInfo {
    (s.sec_addr, s.beg, s.end, s.writable, s.executable)
}

/// The image as seen in contracts.
pub ghost struct ImageView {
    pub image: Seq<u8>,
    pub entry: u64,
    pub sections: Map<Seq<char>, SectionInfo>,
}

/// A change made to an image after it was built from its bytes.
pub ghost enum ImageOp {
    /// `set_entrypoint` with this entry point.
    SetEntrypoint(u64),
    /// `add_section` with this name and section.
    AddSection(Seq<char>, SectionInfo),
}

/// The image of `image` as `from_image` builds it: entry point 0 and no
/// sections.
pub open spec fn fresh_image(image: Seq<u8>) -> ImageView {
    ImageView { image, entry: 0, sections: Map::empty() }
}

/// The image `v` after `op`.
pub open spec fn image_after(v: ImageView, op: ImageOp) -> ImageView {
    match op {
        ImageOp::SetEntrypoint(ep) => ImageView { entry: ep, ..v },
        ImageOp::AddSection(name, sec) => ImageView { sections: v.sections.insert(name, sec), ..v },
    }
}

/// The image `v` after each of `ops`, in order.
pub open spec fn image_after_all(v: ImageView, ops: Seq<ImageOp>) -> ImageView
    decreases ops.len(),
{
    if ops.len() == 0 {
        v
    } else {
        image_after(image_after_all(v, ops.drop_last()), ops.last())
    }
}

/// The entry point of an image built from its bytes and then changed by
/// `ops` is the one that the last `set_entrypoint` among them set, or 0 where
/// none of them sets one.
pub proof fn lemma_entrypoint_is_last_set(image: Seq<u8>, ops: Seq<ImageOp>)
    ensures
        (forall|i: int| 0 <= i < ops.len() ==> !(#[trigger] ops[i] is SetEntrypoint))
            ==> image_after_all(fresh_image(image), ops).entry == 0,
        forall|i: int|
            #![trigger ops[i]]
            0 <= i < ops.len() && (forall|j: int| i < j < ops.len() ==> !(#[trigger] ops[j] is SetEntrypoint))
                ==> (ops[i] matches ImageOp::SetEntrypoint(ep) ==> image_after_all(fresh_image(image), ops).entry == ep),
    decreases ops.len(),
{
    if ops.len() > 0 {
        let init = ops.drop_last();
        lemma_entrypoint_is_last_set(image, init);
        assert forall|i: int| 0 <= i < init.len() implies init[i] == ops[i] by {}
        let n = ops.len() - 1;
        assert forall|i: int|
            #![trigger ops[i]]
            0 <= i < ops.len() && (forall|j: int| i < j < ops.len() ==> !(#[trigger] ops[j] is SetEntrypoint))
                implies (ops[i] matches ImageOp::SetEntrypoint(ep) ==> image_after_all(fresh_image(image), ops).entry == ep) by {
            if i < n {
                assert(!(ops[n] is SetEntrypoint));
                assert(init[i] == ops[i]);
                assert forall|j: int| i < j < init.len() implies !(#[trigger] init[j] is SetEntrypoint) by {
                    assert(init[j] == ops[j]);
                }
            }
        }
        if forall|i: int| 0 <= i < ops.len() ==> !(#[trigger] ops[i] is SetEntrypoint) {
            assert forall|i: int| 0 <= i < init.len() implies !(#[trigger] init[i] is SetEntrypoint) by {
                assert(init[i] == ops[i]);
            }
            assert(!(ops[n] is SetEntrypoint));
        }
    }
}

/// A program image.
pub struct Image {
    image: Vec<u8>,
    image_code_entry: u64,
    /// Each name occurs once.
    sections: Vec<(String, Section)>,
}

/// The sections of `s` by name, when no name occurs twice.
spec fn section_map(s: Seq<(String, Section)>) -> Map<Seq<char>, SectionInfo> {
    Map::new(
        |k: Seq<char>| exists|i: int| 0 <= i < s.len() && (#[trigger] s[i]).0@ == k,
        |k: Seq<char>| info(s[choose|i: int| 0 <= i < s.len() && (#[trigger] s[i]).0@ == k].1),
    )
}

impl View for Image {
    type V = ImageView;

    closed spec fn view(&self) -> ImageView {
        ImageView {
            image: self.image@,
            entry: self.image_code_entry,
            sections: section_map(self.sections@),
        }
    }
}

impl Image {
    /// The image's invariant: no section name occurs twice.
    pub closed spec fn wf(&self) -> bool {
        forall|i: int, j: int|
            0 <= i < j < self.sections@.len() ==> (#[trigger] self.sections@[i]).0@ != (
            #[trigger] self.sections@[j]).0@
    }

    /// An image of `image`, with entry point 0 and no sections.
    pub fn from_image(image: Vec<u8>) -> (r: Self)
        ensures
            r.wf(),
            r@ == fresh_image(image@),
    {
        let r = Self { image, image_code_entry: 0, sections: Vec::new() };
        assert(r@.sections =~= Map::<Seq<char>, SectionInfo>::empty());
        assert(r@ == fresh_image(image@));
        r
    }

    /// Sets the entry point.
    pub fn set_entrypoint(&mut self, ep: u64) -> (r: &mut Self)
        requires
            old(self).wf(),
        ensures
            r.wf(),
            r@ == image_after(old(self)@, ImageOp::SetEntrypoint(ep)),
            *final(self) == *final(r),
    {
        self.image_code_entry = ep;
        self
    }

    /// The entry point.
    pub fn entrypoint(&self) -> (r: u64)
        ensures
            r == self@.entry,
    {
        self.image_code_entry
    }

    /// The index of the section called `name`, if there is one.
    fn find(&self, name: &String) -> (r: Option<usize>)
        requires
            self.wf(),
        ensures
            r is None <==> !self@.sections.contains_key(name@),
            r matches Some(i) ==> i < self.sections@.len() && self.sections@[i as int].0@ == name@
                && self@.sections[name@] == info(self.sections@[i as int].1),
    {
        let mut i: usize = 0;
        while i < self.sections.len()
            invariant
                self.wf(),
                i <= self.sections@.len(),
                forall|j: int| 0 <= j < i ==> (#[trigger] self.sections@[j]).0@ != name@,
            decreases self.sections@.len() - i,
        {
            if self.sections[i].0 == *name {
                proof {
                    let s = self.sections@;
                    assert(s[i as int].0@ == name@);
                    let j = choose|j: int| 0 <= j < s.len() && (#[trigger] s[j]).0@ == name@;
                    assert(j == i);
                }
                return Some(i);
            }
            i = i + 1;
        }
        None
    }

    /// Adds the section `sec_name`, or replaces the section of that name.
    pub fn add_section(
        &mut self,
        sec_name: &str,
        sec_addr: u64,
        writable: bool,
        executable: bool,
        beg: usize,
        end: usize,
    ) -> (r: &mut Self)
        requires
            old(self).wf(),
        ensures
            r.wf(),
            r@ == image_after(
                old(self)@,
                ImageOp::AddSection(sec_name@, (sec_addr, beg, end, writable, executable)),
            ),
            *final(self) == *final(r),
    {
        let name = sec_name.to_owned();
        let sec = Section { sec_addr, writable, executable, beg, end };
        let ghost s0 = self.sections@;
        match self.find(&name) {
            Some(i) => {
                self.sections.set(i, (name, sec));
                proof {
                    let s = self.sections@;
                    assert forall|a: int, b: int| 0 <= a < b < s.len() implies (#[trigger] s[a]).0@
                        != (#[trigger] s[b]).0@ by {
                        assert(s0[a].0@ != s0[b].0@);
                    }
                    assert forall|k: Seq<char>| #[trigger] section_map(s).contains_key(k) <==> old(
                        self,
                    )@.sections.insert(sec_name@, info(sec)).contains_key(k) by {
                        if k != sec_name@ && section_map(s0).contains_key(k) {
                            let j = choose|j: int| 0 <= j < s0.len() && (#[trigger] s0[j]).0@ == k;
                            assert(s[j] == s0[j]);
                        }
                        if k != sec_name@ && section_map(s).contains_key(k) {
                            let j = choose|j: int| 0 <= j < s.len() && (#[trigger] s[j]).0@ == k;
                            assert(s[j] == s0[j]);
                        }
                        if k == sec_name@ {
                            assert(s[i as int].0@ == k);
                        }
                    }
                    assert forall|k: Seq<char>| #[trigger] section_map(s).contains_key(k)
                        implies section_map(s)[k] == old(self)@.sections.insert(sec_name@, info(sec))[k] by {
                        let j = choose|j: int| 0 <= j < s.len() && (#[trigger] s[j]).0@ == k;
                        if k == sec_name@ {
                            assert(s[i as int].0@ == k);
                            assert(j == i);
                        } else {
                            assert(s[j] == s0[j]);
                            let j0 = choose|j0: int| 0 <= j0 < s0.len() && (#[trigger] s0[j0]).0@ == k;
                            assert(j0 == j);
                        }
                    }
                    assert(section_map(s) =~= old(self)@.sections.insert(sec_name@, info(sec)));
                }
            },
            None => {
                self.sections.push((name, sec));
                proof {
                    let s = self.sections@;
                    let n = s0.len() as int;
                    assert forall|a: int, b: int| 0 <= a < b < s.len() implies (#[trigger] s[a]).0@
                        != (#[trigger] s[b]).0@ by {
                        if b < n {
                            assert(s0[a].0@ != s0[b].0@);
                        } else {
                            assert(s[a] == s0[a]);
                            assert(section_map(s0).contains_key(s0[a].0@));
                        }
                    }
                    assert forall|k: Seq<char>| #[trigger] section_map(s).contains_key(k) <==> old(
                        self,
                    )@.sections.insert(sec_name@, info(sec)).contains_key(k) by {
                        if k != sec_name@ && section_map(s0).contains_key(k) {
                            let j = choose|j: int| 0 <= j < s0.len() && (#[trigger] s0[j]).0@ == k;
                            assert(s[j] == s0[j]);
                        }
                        if k != sec_name@ && section_map(s).contains_key(k) {
                            let j = choose|j: int| 0 <= j < s.len() && (#[trigger] s[j]).0@ == k;
                            assert(j < n);
                            assert(s[j] == s0[j]);
                        }
                        if k == sec_name@ {
                            assert(s[n].0@ == k);
                        }
                    }
                    assert forall|k: Seq<char>| #[trigger] section_map(s).contains_key(k)
                        implies section_map(s)[k] == old(self)@.sections.insert(sec_name@, info(sec))[k] by {
                        let j = choose|j: int| 0 <= j < s.len() && (#[trigger] s[j]).0@ == k;
                        if k == sec_name@ {
                            assert(s[n].0@ == k);
                            if j < n {
                                assert(s[j] == s0[j]);
                                assert(section_map(s0).contains_key(k));
                            }
                            assert(j == n);
                        } else {
                            assert(j < n);
                            assert(s[j] == s0[j]);
                            let j0 = choose|j0: int| 0 <= j0 < s0.len() && (#[trigger] s0[j0]).0@ == k;
                            assert(j0 == j);
                        }
                    }
                    assert(section_map(s) =~= old(self)@.sections.insert(sec_name@, info(sec)));
                }
            },
        }
        self
    }

    /// The names of the sections, each once, in no particular order.
    pub fn sections(&self) -> (r: Vec<&str>)
        requires
            self.wf(),
        ensures
            r@.len() == self@.sections.dom().len(),
            forall|i: int| 0 <= i < r@.len() ==> self@.sections.contains_key(#[trigger] r@[i]@),
            forall|k: Seq<char>| #[trigger] self@.sections.contains_key(k) ==> exists|i: int|
                0 <= i < r@.len() && (#[trigger] r@[i])@ == k,
            forall|i: int, j: int| 0 <= i < j < r@.len() ==> (#[trigger] r@[i])@ != (#[trigger] r@[j])@,
    {
        let mut r: Vec<&str> = Vec::new();
        let mut i: usize = 0;
        while i < self.sections.len()
            invariant
                self.wf(),
                i <= self.sections@.len(),
                r@.len() == i,
                forall|j: int| 0 <= j < i ==> (#[trigger] r@[j])@ == self.sections@[j].0@,
            decreases self.sections@.len() - i,
        {
            r.push(self.sections[i].0.as_str());
            i = i + 1;
        }
        proof {
            let s = self.sections@;
            let names = s.map_values(|e: (String, Section)| e.0@);
            assert forall|k: Seq<char>| #[trigger] self@.sections.contains_key(k) implies exists|i: int|
                0 <= i < r@.len() && (#[trigger] r@[i])@ == k by {
                let j = choose|j: int| 0 <= j < s.len() && (#[trigger] s[j]).0@ == k;
                assert(r@[j]@ == k);
            }
            assert forall|a: int| 0 <= a < r@.len() implies self@.sections.contains_key(#[trigger] r@[a]@) by {
                assert(s[a].0@ == r@[a]@);
            }
            assert(names.no_duplicates()) by {
                assert forall|a: int, b: int| 0 <= a < names.len() && 0 <= b < names.len() && a != b implies names[a] != names[b] by {
                    if a < b {
                        assert(s[a].0@ != s[b].0@);
                    } else {
                        assert(s[b].0@ != s[a].0@);
                    }
                }
            }
            assert(names.to_set() =~= self@.sections.dom()) by {
                assert forall|k: Seq<char>| names.to_set().contains(k) implies self@.sections.dom().contains(k) by {
                    let j = choose|j: int| 0 <= j < names.len() && names[j] == k;
                    assert(s[j].0@ == k);
                }
                assert forall|k: Seq<char>| self@.sections.dom().contains(k) implies names.to_set().contains(k) by {
                    let j = choose|j: int| 0 <= j < s.len() && (#[trigger] s[j]).0@ == k;
                    assert(names[j] == k);
                }
            }
            names.unique_seq_to_set();
        }
        r
    }

    /// The load address of the section `name`, which must exist.
    pub fn section_addr(&self, name: &str) -> (r: u64)
        requires
            self.wf(),
            self@.sections.contains_key(name@),
        ensures
            r == self@.sections[name@].0,
    {
        let key = name.to_owned();
        let i = self.find(&key).unwrap();
        self.sections[i].1.sec_addr
    }

    /// The bytes of the section `name`, which must exist and lie within the
    /// image.
    pub fn section_data(&self, name: &str) -> (r: &[u8])
        requires
            self.wf(),
            self@.sections.contains_key(name@),
            self@.sections[name@].1 <= self@.sections[name@].2 <= self@.image.len(),
        ensures
            r@ == self@.image.subrange(
                self@.sections[name@].1 as int,
                self@.sections[name@].2 as int,
            ),
    {
        let key = name.to_owned();
        let i = self.find(&key).unwrap();
        let sec = self.sections[i].1;
        vstd::slice::slice_subrange(self.image.as_slice(), sec.beg, sec.end)
    }

    /// Whether the section `name`, which must exist, is writable and
    /// executable.
    pub fn section_access_info(&self, name: &str) -> (r: (bool, bool))
        requires
            self.wf(),
            self@.sections.contains_key(name@),
        ensures
            r == (self@.sections[name@].3, self@.sections[name@].4),
    {
        let key = name.to_owned();
        let i = self.find(&key).unwrap();
        let sec = self.sections[i].1;
        (sec.writable, sec.executable)
    }
}

} // verus!
