//! Descending into a tree along a path.

use vstd::pervasive::unreached;
use vstd::prelude::*;
use crate::accessor::AccessType;
use crate::accessor::Accessor;
use crate::accessor::Segment;
use crate::element::kind::ConfigElementType;
use crate::element::lookup;
use crate::element::ConfigElement;
use crate::element::ConfigElementMapType;
use crate::element::ConfigElementListType;
use crate::object::AccessFailure;
use crate::object::ConfigObjectAccessError;

verus! {

/// The outcome of a descent: the value that was reached, nothing where the
/// tree has no value at the path, or the reason why the path does not fit the
/// tree.
pub type Resolved = Result<Option<ConfigElement>, AccessFailure>;

/// What a descent that hands out a reference came to.
pub open spec fn outcome_of(
    outcome: Result<Option<&ConfigElement>, ConfigObjectAccessError>,
) -> Resolved {
    match outcome {
        Ok(Some(element)) => Ok(Some(*element)),
        Ok(None) => Ok(None),
        Err(error) => Err(error@),
    }
}

impl ConfigElement {
    /// One step of a descent: the child of this element that `segment` names.
    ///
    /// A key on a map gives the value under the key, an index on a list the
    /// value at that position; where there is none, the step gives nothing.
    /// A key on anything but a map, and an index on anything but a list, is
    /// an error that names the kind of this element.
    pub open spec fn step(&self, segment: Segment) -> Resolved {
        match segment {
            Segment::Key(key) => match self {
                ConfigElement::Dict(map) => Ok(lookup(map.entries@, key)),
                _ => Err(AccessFailure::KeyOn(self.kind(), key)),
            },
            Segment::Index(index) => match self {
                ConfigElement::List(items) => Ok(
                    if index < items@.len() {
                        Some(items@[index as int])
                    } else {
                        None
                    },
                ),
                _ => Err(AccessFailure::IndexOn(self.kind(), index)),
            },
        }
    }

    /// What lies at `path` below this element.
    ///
    /// The segments are taken one after the other. The descent ends with
    /// nothing as soon as a step finds no child, and with an error as soon as
    /// a segment does not fit the element it is used on; it gives the element
    /// that the last segment names otherwise. An empty path names nothing and
    /// is an error.
    pub open spec fn resolve(&self, path: Seq<Segment>) -> Resolved
        decreases path.len(),
    {
        if path.len() == 0 {
            Err(AccessFailure::NoAccessor)
        } else {
            match self.step(path[0]) {
                Ok(Some(child)) => if path.len() == 1 {
                    Ok(Some(child))
                } else {
                    child.resolve(path.skip(1))
                },
                Ok(None) => Ok(None),
                Err(failure) => Err(failure),
            }
        }
    }

    /// How many segments of `path` a descent from this element takes before
    /// it ends: one for every step that found a child.
    pub open spec fn descended(&self, path: Seq<Segment>) -> nat
        decreases path.len(),
    {
        if path.len() == 0 {
            0
        } else {
            match self.step(path[0]) {
                Ok(Some(child)) => if path.len() == 1 {
                    1
                } else {
                    1 + child.descended(path.skip(1))
                },
                _ => 0,
            }
        }
    }

    /// Descends from this element along the segments of `accessor` that lie
    /// at and behind its cursor, and moves the cursor past every segment that
    /// led to a child.
    ///
    /// Every step looks at the segment under the cursor and at the kind of
    /// the element that was reached. A key on a map and an index on a list
    /// lead on to the child, if there is one; the descent ends with the child
    /// that the last segment names, or with nothing where a child is missing.
    /// Any other pair of segment and kind is an error of its own.
    pub fn access<'a>(&'a self, accessor: &mut Accessor) -> (outcome: Result<
        Option<&'a ConfigElement>,
        ConfigObjectAccessError,
    >)
        ensures
            outcome_of(outcome) == self.resolve(old(accessor).remaining()),
            final(accessor).path() == old(accessor).path(),
            final(accessor).position() == old(accessor).position() + self.descended(
                old(accessor).remaining(),
            ),
    {
        let ghost whole = accessor.remaining();
        let ghost begun = accessor.position();
        let mut node: &'a ConfigElement = self;
        loop
            invariant
                accessor.path() == old(accessor).path(),
                accessor.position() >= begun,
                self.resolve(whole) == node.resolve(accessor.remaining()),
                self.descended(whole) == (accessor.position() - begun) + node.descended(
                    accessor.remaining(),
                ),
                whole == old(accessor).remaining(),
                begun == old(accessor).position(),
            decreases accessor.remaining().len(),
        {
            let ghost path = accessor.remaining();
            match (accessor.current(), node.get_type()) {
                (Some(AccessType::Key(k)), ConfigElementType::Null) => {
                    return Err(ConfigObjectAccessError::AccessWithKeyOnNull(k.clone()));
                },
                (Some(AccessType::Key(k)), ConfigElementType::Bool) => {
                    return Err(ConfigObjectAccessError::AccessWithKeyOnBool(k.clone()));
                },
                (Some(AccessType::Key(k)), ConfigElementType::I8) => {
                    return Err(ConfigObjectAccessError::AccessWithKeyOnI8(k.clone()));
                },
                (Some(AccessType::Key(k)), ConfigElementType::I16) => {
                    return Err(ConfigObjectAccessError::AccessWithKeyOnI16(k.clone()));
                },
                (Some(AccessType::Key(k)), ConfigElementType::I32) => {
                    return Err(ConfigObjectAccessError::AccessWithKeyOnI32(k.clone()));
                },
                (Some(AccessType::Key(k)), ConfigElementType::I64) => {
                    return Err(ConfigObjectAccessError::AccessWithKeyOnI64(k.clone()));
                },
                (Some(AccessType::Key(k)), ConfigElementType::U8) => {
                    return Err(ConfigObjectAccessError::AccessWithKeyOnU8(k.clone()));
                },
                (Some(AccessType::Key(k)), ConfigElementType::U16) => {
                    return Err(ConfigObjectAccessError::AccessWithKeyOnU16(k.clone()));
                },
                (Some(AccessType::Key(k)), ConfigElementType::U32) => {
                    return Err(ConfigObjectAccessError::AccessWithKeyOnU32(k.clone()));
                },
                (Some(AccessType::Key(k)), ConfigElementType::U64) => {
                    return Err(ConfigObjectAccessError::AccessWithKeyOnU64(k.clone()));
                },
                (Some(AccessType::Key(k)), ConfigElementType::F32) => {
                    return Err(ConfigObjectAccessError::AccessWithKeyOnF32(k.clone()));
                },
                (Some(AccessType::Key(k)), ConfigElementType::F64) => {
                    return Err(ConfigObjectAccessError::AccessWithKeyOnF64(k.clone()));
                },
                (Some(AccessType::Key(k)), ConfigElementType::Str) => {
                    return Err(ConfigObjectAccessError::AccessWithKeyOnStr(k.clone()));
                },
                (Some(AccessType::Key(k)), ConfigElementType::List) => {
                    return Err(ConfigObjectAccessError::AccessWithKeyOnList(k.clone()));
                },
                (Some(AccessType::Key(k)), ConfigElementType::Dict) => {
                    match node.as_map() {
                        Some(map) => {
                            match map.get(k.as_str()) {
                                Some(value) => {
                                    accessor.advance();
                                    assert(accessor.remaining() =~= path.skip(1));
                                    if accessor.current().is_none() {
                                        return Ok(Some(value));
                                    }
                                    node = value;
                                },
                                None => {
                                    return Ok(None);
                                },
                            }
                        },
                        None => unreached(),
                    }
                },
                (Some(AccessType::Index(u)), ConfigElementType::Null) => {
                    return Err(ConfigObjectAccessError::AccessWithIndexOnNull(*u));
                },
                (Some(AccessType::Index(u)), ConfigElementType::Bool) => {
                    return Err(ConfigObjectAccessError::AccessWithIndexOnBool(*u));
                },
                (Some(AccessType::Index(u)), ConfigElementType::I8) => {
                    return Err(ConfigObjectAccessError::AccessWithIndexOnI8(*u));
                },
                (Some(AccessType::Index(u)), ConfigElementType::I16) => {
                    return Err(ConfigObjectAccessError::AccessWithIndexOnI16(*u));
                },
                (Some(AccessType::Index(u)), ConfigElementType::I32) => {
                    return Err(ConfigObjectAccessError::AccessWithIndexOnI32(*u));
                },
                (Some(AccessType::Index(u)), ConfigElementType::I64) => {
                    return Err(ConfigObjectAccessError::AccessWithIndexOnI64(*u));
                },
                (Some(AccessType::Index(u)), ConfigElementType::U8) => {
                    return Err(ConfigObjectAccessError::AccessWithIndexOnU8(*u));
                },
                (Some(AccessType::Index(u)), ConfigElementType::U16) => {
                    return Err(ConfigObjectAccessError::AccessWithIndexOnU16(*u));
                },
                (Some(AccessType::Index(u)), ConfigElementType::U32) => {
                    return Err(ConfigObjectAccessError::AccessWithIndexOnU32(*u));
                },
                (Some(AccessType::Index(u)), ConfigElementType::U64) => {
                    return Err(ConfigObjectAccessError::AccessWithIndexOnU64(*u));
                },
                (Some(AccessType::Index(u)), ConfigElementType::F32) => {
                    return Err(ConfigObjectAccessError::AccessWithIndexOnF32(*u));
                },
                (Some(AccessType::Index(u)), ConfigElementType::F64) => {
                    return Err(ConfigObjectAccessError::AccessWithIndexOnF64(*u));
                },
                (Some(AccessType::Index(u)), ConfigElementType::Str) => {
                    return Err(ConfigObjectAccessError::AccessWithIndexOnStr(*u));
                },
                (Some(AccessType::Index(u)), ConfigElementType::Dict) => {
                    return Err(ConfigObjectAccessError::AccessWithIndexOnMap(*u));
                },
                (Some(AccessType::Index(u)), ConfigElementType::List) => {
                    match node.as_list() {
                        Some(list) => {
                            match list.at_index(*u) {
                                Some(value) => {
                                    accessor.advance();
                                    assert(accessor.remaining() =~= path.skip(1));
                                    if accessor.current().is_none() {
                                        return Ok(Some(value));
                                    }
                                    node = value;
                                },
                                None => {
                                    return Ok(None);
                                },
                            }
                        },
                        None => unreached(),
                    }
                },
                (None, _) => {
                    return Err(ConfigObjectAccessError::NoAccessor);
                },
            }
        }
    }
}

} // verus!
