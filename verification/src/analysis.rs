//! The data every batch run produces: object references, per-object
//! analysis results, and the records the final reports are built from.

use vstd::prelude::*;

use crate::strutil::str_eq;

verus! {

/// One unit of work in a batch: an object in remote storage, or a file
/// on the local machine. Immutable once enumerated.
#[derive(Debug)]
pub enum ObjectRef {
    Stored { container: String, key: String },
    Local { path: String },
}

impl ObjectRef {
    /// An equal reference; references are immutable, so callers copy
    /// them into the records they keep.
    pub fn duplicate(&self) -> (r: ObjectRef)
        ensures
            r == *self,
    {
        match self {
            ObjectRef::Stored { container, key } => ObjectRef::Stored {
                container: container.clone(),
                key: key.clone(),
            },
            ObjectRef::Local { path } => ObjectRef::Local { path: path.clone() },
        }
    }

    /// The text that names this object in reports: `container/key` for a
    /// stored object, the path for a local one.
    pub open spec fn display_spec(self) -> Seq<char> {
        match self {
            ObjectRef::Stored { container, key } => container@ + seq!['/'] + key@,
            ObjectRef::Local { path } => path@,
        }
    }

    /// Renders the name of this object for a report line.
    pub fn display(&self) -> (text: String)
        ensures
            text@ == self.display_spec(),
    {
        match self {
            ObjectRef::Stored { container, key } => {
                proof {
                    reveal_strlit("/");
                }
                let mut text = container.clone();
                text.append("/");
                text.append(key.as_str());
                proof {
                    assert(text@ =~= self.display_spec());
                }
                text
            },
            ObjectRef::Local { path } => path.clone(),
        }
    }
}

/// One named attribute of an analysis result, with the service's
/// confidence in basis points (ten-thousandths, nominally at most ten
/// thousand).
#[derive(Debug)]
pub struct Attribute {
    pub name: String,
    pub value: String,
    pub confidence_bp: u32,
}

/// A geometric region as fractions of the source dimensions, in basis
/// points. The remote service nominally keeps every value inside the
/// unit square, but out-of-range values must be tolerated, so nothing
/// here requires them to be in bounds.
#[derive(Debug, Clone, Copy, PartialEq, Eq, Structural)]
pub struct Region {
    pub width_bp: u32,
    pub height_bp: u32,
    pub left_bp: u32,
    pub top_bp: u32,
}

impl Region {
    /// Whether the region lies inside the unit square: every fraction at
    /// most one, and neither width plus left offset nor height plus top
    /// offset past one.
    pub open spec fn in_bounds_spec(self) -> bool {
        &&& self.width_bp <= 10000
        &&& self.height_bp <= 10000
        &&& self.left_bp <= 10000
        &&& self.top_bp <= 10000
        &&& self.width_bp + self.left_bp <= 10000
        &&& self.height_bp + self.top_bp <= 10000
    }

    /// Checks whether the region lies inside the unit square; a region
    /// that does not is kept and reported, never a crash.
    pub fn in_bounds(&self) -> (r: bool)
        ensures
            r == self.in_bounds_spec(),
    {
        self.width_bp <= 10000 && self.height_bp <= 10000 && self.left_bp <= 10000 && self.top_bp
            <= 10000 && self.width_bp + self.left_bp <= 10000 && self.height_bp + self.top_bp
            <= 10000
    }
}

/// The first attribute with a given name, searching front to back.
pub open spec fn attr_lookup(attrs: Seq<Attribute>, name: Seq<char>) -> Option<Attribute>
    decreases attrs.len(),
{
    if attrs.len() == 0 {
        None
    } else if attrs[0].name@ == name {
        Some(attrs[0])
    } else {
        attr_lookup(attrs.drop_first(), name)
    }
}

/// One per-object outcome of the analysis call: a set of named
/// attributes and an optional region. A single object may analyze to
/// several results (for example several detected faces), each carried in
/// its own value of this type.
#[derive(Debug)]
pub struct AnalysisResult {
    pub attributes: Vec<Attribute>,
    pub region: Option<Region>,
}

impl AnalysisResult {
    /// The first attribute with the given name, if any.
    pub fn find_attribute(&self, name: &str) -> (r: Option<&Attribute>)
        ensures
            match attr_lookup(self.attributes@, name@) {
                Some(a) => r matches Some(found) && *found == a,
                None => r is None,
            },
    {
        let n = self.attributes.len();
        let mut i: usize = 0;
        proof {
            assert(self.attributes@.skip(0) =~= self.attributes@);
        }
        while i < n
            invariant
                n == self.attributes@.len(),
                i <= n,
                attr_lookup(self.attributes@, name@) == attr_lookup(
                    self.attributes@.skip(i as int),
                    name@,
                ),
            decreases n - i,
        {
            if str_eq(self.attributes[i].name.as_str(), name) {
                proof {
                    assert(self.attributes@.skip(i as int)[0] == self.attributes@[i as int]);
                }
                return Some(&self.attributes[i]);
            }
            proof {
                assert(self.attributes@.skip(i as int).drop_first() =~= self.attributes@.skip(
                    i as int + 1,
                ));
                assert(self.attributes@.skip(i as int)[0] == self.attributes@[i as int]);
            }
            i += 1;
        }
        proof {
            assert(self.attributes@.skip(n as int) =~= Seq::<Attribute>::empty());
        }
        None
    }

    /// Whether every required attribute name is present.
    pub open spec fn has_all_spec(self, required: Seq<Seq<char>>) -> bool {
        forall|j: int|
            0 <= j < required.len() ==> attr_lookup(self.attributes@, required[j]) is Some
    }

    /// Checks that every attribute a transform requires is present in
    /// this result; a transform runs only when this holds.
    pub fn has_all_attributes(&self, required: &Vec<String>) -> (r: bool)
        ensures
            r == self.has_all_spec(required@.map_values(|s: String| s@)),
    {
        let ghost req = required@.map_values(|s: String| s@);
        let n = required.len();
        let mut i: usize = 0;
        while i < n
            invariant
                n == required@.len(),
                req == required@.map_values(|s: String| s@),
                i <= n,
                forall|j: int| 0 <= j < i ==> attr_lookup(self.attributes@, req[j]) is Some,
            decreases n - i,
        {
            if self.find_attribute(required[i].as_str()).is_none() {
                proof {
                    assert(req[i as int] == required@[i as int]@);
                }
                return false;
            }
            proof {
                assert(req[i as int] == required@[i as int]@);
            }
            i += 1;
        }
        true
    }
}

/// One row of the aggregate report: the object, and its analysis result
/// or the explicit absence marker (`None`) when the object yielded no
/// usable result.
#[derive(Debug)]
pub struct BatchRecord {
    pub object: ObjectRef,
    pub result: Option<AnalysisResult>,
}

impl BatchRecord {
    /// Whether this record marks the absence of a usable result.
    pub open spec fn is_absence_spec(self) -> bool {
        self.result is None
    }

    /// Whether this record marks the absence of a usable result.
    pub fn is_absence(&self) -> (r: bool)
        ensures
            r == self.is_absence_spec(),
    {
        self.result.is_none()
    }
}

} // verus!
