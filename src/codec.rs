use vstd::prelude::*;
use std::rc::Rc;

use crate::MediaType;

verus! {

/// The engine's numeric codec identifier; 0 is "no codec".
pub type CodecId = u32;

/// The fields that describe a stream's codec.
pub struct CodecFields {
    pub codec_type: MediaType,
    pub codec_id: CodecId,
    /// Codec-specific configuration bytes, opaque to this library.
    pub extradata: Vec<u8>,
}

pub struct CodecFieldsView {
    pub codec_type: MediaType,
    pub codec_id: CodecId,
    pub extradata: Seq<u8>,
}

impl View for CodecFields {
    type V = CodecFieldsView;

    open spec fn view(&self) -> CodecFieldsView {
        CodecFieldsView {
            codec_type: self.codec_type,
            codec_id: self.codec_id,
            extradata: self.extradata@,
        }
    }
}

impl CodecFields {
    /// The fields of a freshly allocated parameter set.
    pub fn unset() -> (r: CodecFields)
        ensures
            r@ == unset_fields(),
    {
        CodecFields { codec_type: MediaType::Unknown, codec_id: 0, extradata: Vec::new() }
    }

    /// A copy with storage of its own.
    pub fn copy(&self) -> (r: CodecFields)
        ensures
            r@ == self@,
    {
        let extradata = self.extradata.clone();
        assert(extradata@ =~= self.extradata@);
        CodecFields { codec_type: self.codec_type, codec_id: self.codec_id, extradata }
    }
}

pub open spec fn unset_fields() -> CodecFieldsView {
    CodecFieldsView { codec_type: MediaType::Unknown, codec_id: 0, extradata: Seq::empty() }
}

/// What a parameter set holds, and whether its storage is the container's.
pub struct ParametersView {
    pub fields: CodecFieldsView,
    /// Aliased parameters belong to a stream slot of a live container and are
    /// never freed on their own; exclusive ones own their storage.
    pub aliased: bool,
}

/// Codec parameters, either owned exclusively or aliasing a stream slot of a
/// container. An aliased set holds the container's destructor handle for its
/// whole life, so the container's storage outlives it.
pub struct CodecParameters<D> {
    fields: CodecFields,
    dtor: Option<Rc<D>>,
}

impl<D> View for CodecParameters<D> {
    type V = ParametersView;

    closed spec fn view(&self) -> ParametersView {
        ParametersView { fields: self.fields@, aliased: self.dtor is Some }
    }
}

impl<D> CodecParameters<D> {
    /// Parameters over `fields`: aliased where a destructor handle of the
    /// owning container is given, exclusive otherwise.
    pub fn wrap(fields: CodecFields, dtor: Option<Rc<D>>) -> (r: CodecParameters<D>)
        ensures
            r@ == (ParametersView { fields: fields@, aliased: dtor is Some }),
    {
        CodecParameters { fields, dtor }
    }

    /// A fresh, empty, exclusively owned parameter set.
    pub fn new() -> (r: CodecParameters<D>)
        ensures
            r@ == (ParametersView { fields: unset_fields(), aliased: false }),
    {
        CodecParameters { fields: CodecFields::unset(), dtor: None }
    }

    pub fn codec_type(&self) -> (r: MediaType)
        ensures
            r == self@.fields.codec_type,
    {
        self.fields.codec_type
    }

    pub fn codec_id(&self) -> (r: CodecId)
        ensures
            r == self@.fields.codec_id,
    {
        self.fields.codec_id
    }

    pub fn extradata(&self) -> (r: &[u8])
        ensures
            r@ == self@.fields.extradata,
    {
        self.fields.extradata.as_slice()
    }

    pub fn fields(&self) -> (r: &CodecFields)
        ensures
            r@ == self@.fields,
    {
        &self.fields
    }

    /// Whether dropping this set releases its storage. Only exclusive sets
    /// do; an aliased set only gives back its hold on the container.
    pub fn owns_storage(&self) -> (r: bool)
        ensures
            r == !self@.aliased,
    {
        self.dtor.is_none()
    }
}

impl<D> Clone for CodecParameters<D> {
    /// An exclusive deep copy, whatever the mode of the source: cloning an
    /// aliased set never makes a second alias.
    fn clone(&self) -> (r: CodecParameters<D>)
        ensures
            r@ == (ParametersView { fields: self@.fields, aliased: false }),
    {
        CodecParameters { fields: self.fields.copy(), dtor: None }
    }
}

impl<D> Default for CodecParameters<D> {
    fn default() -> (r: CodecParameters<D>)
        ensures
            r@ == (ParametersView { fields: unset_fields(), aliased: false }),
    {
        CodecParameters::new()
    }
}

} // verus!
