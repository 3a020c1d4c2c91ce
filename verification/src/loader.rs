//! Asset-source selection: which of the files that may exist beside an
//! asset name is loaded, and whether a cache write-back follows.
//!
//! The cache blob is preferred; a source format is parsed only when no
//! cache exists, and its compacted form is then written back so later
//! loads read the cache directly.

use vstd::prelude::*;

use crate::error::EngineError;

verus! {

/// Where a model's data comes from.
#[derive(Clone, Copy, Debug, PartialEq, Eq, Structural)]
pub enum ModelSource {
    /// Read the cache blob directly.
    Cache,
    /// Parse the binary scene container, then write the cache back.
    ConvertGlb,
    /// Parse the textual scene description, then write the cache back.
    ConvertGltf,
}

/// Where a texture's data comes from.
#[derive(Clone, Copy, Debug, PartialEq, Eq, Structural)]
pub enum TextureSource {
    /// Read the cache blob directly.
    Cache,
    /// Decode the image file, then write the cache back.
    ConvertPng,
}

/// Picks the model source by extension preference: the cache first, then
/// the binary container, then the textual description.  Fails exactly when
/// none of the candidate files exists.
pub fn choose_model_source(bin_exists: bool, glb_exists: bool, gltf_exists: bool) -> (r: Result<
    ModelSource,
    EngineError,
>)
    ensures
        r == if bin_exists {
            Ok::<ModelSource, EngineError>(ModelSource::Cache)
        } else if glb_exists {
            Ok::<ModelSource, EngineError>(ModelSource::ConvertGlb)
        } else if gltf_exists {
            Ok::<ModelSource, EngineError>(ModelSource::ConvertGltf)
        } else {
            Err::<ModelSource, EngineError>(EngineError::UnsupportedSource)
        },
{
    if bin_exists {
        Ok(ModelSource::Cache)
    } else if glb_exists {
        Ok(ModelSource::ConvertGlb)
    } else if gltf_exists {
        Ok(ModelSource::ConvertGltf)
    } else {
        Err(EngineError::UnsupportedSource)
    }
}

/// Picks the texture source by extension preference: the cache first, then
/// the image file.  Fails exactly when neither candidate file exists.
pub fn choose_texture_source(bin_exists: bool, png_exists: bool) -> (r: Result<
    TextureSource,
    EngineError,
>)
    ensures
        r == if bin_exists {
            Ok::<TextureSource, EngineError>(TextureSource::Cache)
        } else if png_exists {
            Ok::<TextureSource, EngineError>(TextureSource::ConvertPng)
        } else {
            Err::<TextureSource, EngineError>(EngineError::UnsupportedSource)
        },
{
    if bin_exists {
        Ok(TextureSource::Cache)
    } else if png_exists {
        Ok(TextureSource::ConvertPng)
    } else {
        Err(EngineError::UnsupportedSource)
    }
}

} // verus!
