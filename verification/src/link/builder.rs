//! A builder of link messages.

use vstd::prelude::*;

use crate::link::info::{InfoData, InfoDataView, InfoKind, LinkAttribute, LinkAttributeView};

verus! {

/// A link message under construction, for links of the kind `T`.
///
/// It holds what the message will carry: whether it brings the link up (the
/// `IFF_UP` flag in both the flags and the change mask), the link kind and
/// the kind-specific data of its link info, and further attributes such as
/// the interface name, in the order they were added.
#[derive(Debug)]
pub struct LinkMessageBuilder<T> {
    up: bool,
    info_kind: Option<InfoKind>,
    info_data: Option<InfoData>,
    attributes: Vec<LinkAttribute>,
    kind: std::marker::PhantomData<T>,
}

/// What a `LinkMessageBuilder` holds.
#[verifier::ext_equal]
pub struct LinkMessageView {
    pub up: bool,
    pub info_kind: Option<InfoKind>,
    pub info_data: Option<InfoDataView>,
    pub attributes: Seq<LinkAttributeView>,
}

impl LinkMessageView {
    /// The same message with its link-info data replaced by `info_data`.
    pub open spec fn with_info_data(self, info_data: Option<InfoDataView>) -> LinkMessageView {
        LinkMessageView {
            up: self.up,
            info_kind: self.info_kind,
            info_data: info_data,
            attributes: self.attributes,
        }
    }
}

/// The view of a list of link attributes.
pub open spec fn attributes_view(attributes: Seq<LinkAttribute>) -> Seq<LinkAttributeView> {
    attributes.map_values(|a: LinkAttribute| a@)
}

/// The view of optional link-info data.
pub open spec fn info_data_view(info_data: Option<InfoData>) -> Option<InfoDataView> {
    match info_data {
        Some(d) => Some(d@),
        None => None,
    }
}

impl<T> View for LinkMessageBuilder<T> {
    type V = LinkMessageView;

    closed spec fn view(&self) -> LinkMessageView {
        LinkMessageView {
            up: self.up,
            info_kind: self.info_kind,
            info_data: info_data_view(self.info_data),
            attributes: attributes_view(self.attributes@),
        }
    }
}

impl<T> LinkMessageBuilder<T> {
    /// A message for a new link of kind `info_kind`, with no data and no
    /// further attributes, that does not bring the link up.
    pub fn new_with_info_kind(info_kind: InfoKind) -> (res: Self)
        ensures
            !res@.up,
            res@.info_kind == Some(info_kind),
            res@.info_data.is_none(),
            res@.attributes == Seq::<LinkAttributeView>::empty(),
    {
        let res = LinkMessageBuilder {
            up: false,
            info_kind: Some(info_kind),
            info_data: None,
            attributes: Vec::new(),
            kind: std::marker::PhantomData,
        };
        proof {
            assert(attributes_view(res.attributes@) =~= Seq::<LinkAttributeView>::empty());
        }
        res
    }

    /// The same message, set to bring the link up.
    pub fn up(self) -> (res: Self)
        ensures
            res@ == (LinkMessageView { up: true, ..self@ }),
    {
        let LinkMessageBuilder { up: _, info_kind, info_data, attributes, kind } = self;
        LinkMessageBuilder { up: true, info_kind, info_data, attributes, kind }
    }

    /// The same message with the interface name `name` added to its
    /// attributes.
    pub fn name(self, name: String) -> (res: Self)
        ensures
            res@ == (LinkMessageView {
                attributes: self@.attributes.push(LinkAttributeView::IfName(name@)),
                ..self@
            }),
    {
        let LinkMessageBuilder { up, info_kind, info_data, mut attributes, kind } = self;
        let ghost before = attributes@;
        attributes.push(LinkAttribute::IfName(name));
        proof {
            assert(attributes_view(attributes@) =~= attributes_view(before).push(
                LinkAttributeView::IfName(name@),
            ));
        }
        LinkMessageBuilder { up, info_kind, info_data, attributes, kind }
    }

    /// The same message with its link-info data replaced by `info_data`.
    pub fn set_info_data(self, info_data: InfoData) -> (res: Self)
        ensures
            res@ == self@.with_info_data(Some(info_data@)),
    {
        let LinkMessageBuilder { up, info_kind, info_data: _, attributes, kind } = self;
        LinkMessageBuilder { up, info_kind, info_data: Some(info_data), attributes, kind }
    }

    /// The parts of the message, for sending it: whether it brings the link
    /// up, its link kind and data, and its further attributes.
    pub fn into_parts(self) -> (res: (bool, Option<InfoKind>, Option<InfoData>, Vec<LinkAttribute>))
        ensures
            res.0 == self@.up,
            res.1 == self@.info_kind,
            info_data_view(res.2) == self@.info_data,
            attributes_view(res.3@) == self@.attributes,
    {
        (self.up, self.info_kind, self.info_data, self.attributes)
    }

    /// The same message with its link-info data replaced by `info_data`,
    /// together with the data it held before.
    pub(crate) fn swap_info_data(self, info_data: Option<InfoData>) -> (res: (Self, Option<InfoData>))
        ensures
            res.0@ == self@.with_info_data(info_data_view(info_data)),
            info_data_view(res.1) == self@.info_data,
    {
        let LinkMessageBuilder { up, info_kind, info_data: before, attributes, kind } = self;
        (LinkMessageBuilder { up, info_kind, info_data, attributes, kind }, before)
    }
}

} // verus!
