//! One request from its text to its samples or its failure.

use vstd::prelude::*;
use vstd::string::StringExecFns;
use crate::buffer::DecodedImage;
use crate::buffer::Samples;
use crate::conversion::converted;
use crate::layout::Format;
use crate::layout::SampleKind;
use crate::model::ImageView;
use crate::resolve::is_name_of;

verus! {

/// What is asked for: the image at `path`, in the layout that `format`
/// names, or as it is decoded if no layout is named.
#[derive(Debug, PartialEq, Eq)]
pub struct ConversionRequest {
    pub path: String,
    pub format: Option<String>,
}

/// Why a request yields no samples, by the stage that failed.
#[derive(Debug, PartialEq, Eq)]
pub enum ConversionError {
    /// The request names a layout that does not exist; `token` is the name.
    UnknownFormat { token: String },
    /// The image at `path` could not be read or decoded; `message` is what
    /// the decoder said.
    Decode { path: String, message: String },
}

/// The samples that a decoded image yields for a request: converted to
/// `layout` if one is asked for, as they are if none is.
pub open spec fn emitted(layout: Option<Format>, img: ImageView) -> Seq<int> {
    match layout {
        Some(format) => converted(format, img),
        None => img.samples,
    }
}

/// The representation of the samples that a decoded image yields for a
/// request.
pub open spec fn emitted_kind(layout: Option<Format>, img: ImageView) -> SampleKind {
    match layout {
        Some(format) => format.kind(),
        None => img.layout.kind(),
    }
}

/// The samples of `img` for a request: converted to `layout` if one is asked
/// for; if none is, the samples of the image as they are, in its own layout
/// and representation.
pub fn emit(img: DecodedImage, layout: Option<Format>) -> (out: Samples)
    requires
        layout matches Some(format) ==> img@.fits(format),
    ensures
        out@ == emitted(layout, img@),
        out.kind() == emitted_kind(layout, img@),
{
    match layout {
        Some(format) => format.convert(img),
        None => img.into_samples(),
    }
}

impl ConversionError {
    /// The text of the failure for the one who made the request.
    pub fn message(&self) -> (m: String)
        ensures
            m@ == match *self {
                ConversionError::UnknownFormat { token } => "Matching variant not found"@,
                ConversionError::Decode { path, message } => "couldn't read "@ + path@ + ": "@
                    + message@,
            },
    {
        match self {
            ConversionError::UnknownFormat { token: _ } => "Matching variant not found".to_owned(),
            ConversionError::Decode { path, message } => {
                let mut m = "couldn't read ".to_owned();
                m.append(path.as_str());
                m.append(": ");
                m.append(message.as_str());
                m
            },
        }
    }
}

impl ConversionRequest {
    /// The layout that the request asks for: none if it names none, the
    /// layout of the name if it names one, and the failure that carries the
    /// name if no layout has it.
    pub fn layout(&self) -> (r: Result<Option<Format>, ConversionError>)
        ensures
            match self.format {
                None => r == Ok::<Option<Format>, ConversionError>(None),
                Some(token) => match r {
                    Ok(layout) => layout matches Some(format) && is_name_of(token@, format),
                    Err(e) => {
                        &&& e matches ConversionError::UnknownFormat { token: t }
                        &&& t@ == token@
                        &&& forall|f: Format| !is_name_of(token@, f)
                    },
                },
            },
    {
        match &self.format {
            None => Ok(None),
            Some(token) => match Format::resolve(token.as_str()) {
                Ok(format) => Ok(Some(format)),
                Err(e) => Err(ConversionError::UnknownFormat { token: e.token }),
            },
        }
    }

    /// The outcome of the request once its layout is resolved and its image
    /// decoded: the samples of the image for `layout`, or, if decoding
    /// failed with the text `Err(text)`, the failure that carries the path
    /// of the request and that text.
    pub fn finish(&self, layout: Option<Format>, decoded: Result<DecodedImage, String>) -> (r:
        Result<Samples, ConversionError>)
        requires
            decoded matches Ok(img) ==> (layout matches Some(format) ==> img@.fits(format)),
        ensures
            match decoded {
                Ok(img) => r matches Ok(out) && out@ == emitted(layout, img@) && out.kind()
                    == emitted_kind(layout, img@),
                Err(text) => {
                    &&& r matches Err(ConversionError::Decode { path, message })
                    &&& path@ == self.path@
                    &&& message@ == text@
                },
            },
    {
        match decoded {
            Ok(img) => Ok(emit(img, layout)),
            Err(text) => Err(ConversionError::Decode { path: self.path.clone(), message: text }),
        }
    }
}

} // verus!
