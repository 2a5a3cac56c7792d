//! Configurations of the CLIP text and vision encoders.
use vstd::prelude::*;

verus! {

/// The activation function of the encoders' feed-forward layers.
#[derive(Debug, Clone, Copy, PartialEq, Eq, Structural)]
pub enum Activation {
    QuickGelu,
    Gelu,
}

/// Dimensions of a CLIP transformer.
#[derive(Debug, Clone)]
pub struct Config {
    pub vocab_size: usize,
    /// Width of the hidden states (the model's hidden size).
    pub embed_dim: usize,
    pub activation: Activation,
    pub intermediate_size: usize,
    pub max_position_embeddings: usize,
    /// The character to use for padding; EOS when not set.
    pub pad_with: Option<String>,
    pub num_hidden_layers: usize,
    pub num_attention_heads: usize,
    pub projection_dim: usize,
}

/// Dimensions of a CLIP vision transformer's patch embedding.
pub struct VisionConfig {
    pub hidden_size: usize,
    pub image_size: usize,
    pub patch_size: usize,
    pub num_attention_heads: usize,
    pub intermediate_size: usize,
}

/// The padding string "!".
fn exclamation() -> (r: String)
    ensures
        r@ == seq!['!'],
{
    let r = "!".to_string();
    proof {
        reveal_strlit("!");
        vstd::string::to_string_from_display_ensures_for_str("!", r);
    }
    r
}

/// `c` has the given dimensions, activation and padding.
pub open spec fn has_shape(
    c: Config,
    embed_dim: usize,
    activation: Activation,
    intermediate_size: usize,
    pad: Option<Seq<char>>,
    num_hidden_layers: usize,
    num_attention_heads: usize,
    projection_dim: usize,
) -> bool {
    &&& c.vocab_size == 49408
    &&& c.embed_dim == embed_dim
    &&& c.activation == activation
    &&& c.intermediate_size == intermediate_size
    &&& c.max_position_embeddings == 77
    &&& match pad {
        Some(p) => c.pad_with is Some && c.pad_with->0@ == p,
        None => c.pad_with is None,
    }
    &&& c.num_hidden_layers == num_hidden_layers
    &&& c.num_attention_heads == num_attention_heads
    &&& c.projection_dim == projection_dim
}

impl Config {
    /// Text encoder of openai/clip-vit-base-patch32.
    pub fn clip() -> (c: Self)
        ensures
            has_shape(c, 512, Activation::QuickGelu, 2048, Some(seq!['!']), 12, 8, 512),
    {
        Config {
            vocab_size: 49408,
            embed_dim: 512,
            activation: Activation::QuickGelu,
            intermediate_size: 2048,
            max_position_embeddings: 77,
            pad_with: Some(exclamation()),
            num_hidden_layers: 12,
            num_attention_heads: 8,
            projection_dim: 512,
        }
    }

    /// Vision encoder of openai/clip-vit-base-patch32.
    pub fn vision() -> (c: Self)
        ensures
            has_shape(c, 768, Activation::QuickGelu, 3072, Some(seq!['!']), 12, 8, 512),
    {
        Config {
            vocab_size: 49408,
            embed_dim: 768,
            activation: Activation::QuickGelu,
            intermediate_size: 3072,
            max_position_embeddings: 77,
            pad_with: Some(exclamation()),
            num_hidden_layers: 12,
            num_attention_heads: 8,
            projection_dim: 512,
        }
    }

    /// Text encoder of openai/clip-vit-large-patch14 (Stable Diffusion 1.5).
    pub fn v1_5() -> (c: Self)
        ensures
            has_shape(c, 768, Activation::QuickGelu, 3072, None, 12, 12, 768),
    {
        Config {
            vocab_size: 49408,
            embed_dim: 768,
            intermediate_size: 3072,
            max_position_embeddings: 77,
            pad_with: None,
            num_hidden_layers: 12,
            num_attention_heads: 12,
            projection_dim: 768,
            activation: Activation::QuickGelu,
        }
    }

    /// Text encoder of Stable Diffusion 2.1.
    pub fn v2_1() -> (c: Self)
        ensures
            has_shape(c, 1024, Activation::Gelu, 4096, Some(seq!['!']), 23, 16, 512),
    {
        Config {
            vocab_size: 49408,
            embed_dim: 1024,
            intermediate_size: 4096,
            max_position_embeddings: 77,
            pad_with: Some(exclamation()),
            num_hidden_layers: 23,
            num_attention_heads: 16,
            projection_dim: 512,
            activation: Activation::Gelu,
        }
    }

    /// First text encoder of Stable Diffusion XL base 1.0.
    pub fn sdxl() -> (c: Self)
        ensures
            has_shape(c, 768, Activation::QuickGelu, 3072, Some(seq!['!']), 12, 12, 768),
    {
        Config {
            vocab_size: 49408,
            embed_dim: 768,
            intermediate_size: 3072,
            max_position_embeddings: 77,
            pad_with: Some(exclamation()),
            num_hidden_layers: 12,
            num_attention_heads: 12,
            projection_dim: 768,
            activation: Activation::QuickGelu,
        }
    }

    /// Second text encoder of Stable Diffusion XL base 1.0.
    pub fn sdxl2() -> (c: Self)
        ensures
            has_shape(c, 1280, Activation::Gelu, 5120, Some(seq!['!']), 32, 20, 1280),
    {
        Config {
            vocab_size: 49408,
            embed_dim: 1280,
            intermediate_size: 5120,
            max_position_embeddings: 77,
            pad_with: Some(exclamation()),
            num_hidden_layers: 32,
            num_attention_heads: 20,
            projection_dim: 1280,
            activation: Activation::Gelu,
        }
    }
}

} // verus!
