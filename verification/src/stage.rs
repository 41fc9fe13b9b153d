//! Shader stages and the constant names attached to each of them.

use vstd::prelude::*;

verus! {

/// The pipeline stage a shader is compiled for.
///
/// Each stage carries a fixed target profile and a fixed entry symbol; both
/// are a function of the stage alone.
#[derive(Clone, Copy, Debug, PartialEq, Eq, Structural)]
pub enum ShaderStage {
    Vertex,
    Fragment,
    Compute,
}

impl ShaderStage {
    /// The target profile of this stage, as a sequence of characters.
    pub open spec fn profile_spec(self) -> Seq<char> {
        match self {
            ShaderStage::Vertex => "vs_6_0"@,
            ShaderStage::Fragment => "ps_6_0"@,
            ShaderStage::Compute => "cs_6_0"@,
        }
    }

    /// The entry symbol of this stage, as a sequence of characters.
    pub open spec fn entry_spec(self) -> Seq<char> {
        match self {
            ShaderStage::Vertex => "vs_main"@,
            ShaderStage::Fragment => "ps_main"@,
            ShaderStage::Compute => "cs_main"@,
        }
    }

    /// The two-letter prefix shared by the profile and the entry symbol.
    pub open spec fn prefix_spec(self) -> Seq<char> {
        match self {
            ShaderStage::Vertex => seq!['v', 's'],
            ShaderStage::Fragment => seq!['p', 's'],
            ShaderStage::Compute => seq!['c', 's'],
        }
    }

    /// Target profile handed to the compiler for this stage.
    pub fn profile_name(&self) -> (name: &'static str)
        ensures
            name@ == self.profile_spec(),
    {
        match self {
            ShaderStage::Vertex => "vs_6_0",
            ShaderStage::Fragment => "ps_6_0",
            ShaderStage::Compute => "cs_6_0",
        }
    }

    /// Entry symbol handed to the compiler for this stage.
    pub fn entry_point(&self) -> (name: &'static str)
        ensures
            name@ == self.entry_spec(),
    {
        match self {
            ShaderStage::Vertex => "vs_main",
            ShaderStage::Fragment => "ps_main",
            ShaderStage::Compute => "cs_main",
        }
    }

    /// The profile of every stage is its prefix followed by `_6_0`, and the
    /// entry symbol is the same prefix followed by `_main`; hence two stages
    /// with the same profile or the same entry symbol are the same stage.
    pub proof fn lemma_names_identify_stage(a: ShaderStage, b: ShaderStage)
        ensures
            a.profile_spec() == a.prefix_spec() + seq!['_', '6', '_', '0'],
            a.entry_spec() == a.prefix_spec() + seq!['_', 'm', 'a', 'i', 'n'],
            a.profile_spec() == b.profile_spec() ==> a == b,
            a.entry_spec() == b.entry_spec() ==> a == b,
    {
        reveal_strlit("vs_6_0");
        reveal_strlit("ps_6_0");
        reveal_strlit("cs_6_0");
        reveal_strlit("vs_main");
        reveal_strlit("ps_main");
        reveal_strlit("cs_main");
        assert(a.profile_spec() =~= a.prefix_spec() + seq!['_', '6', '_', '0']);
        assert(a.entry_spec() =~= a.prefix_spec() + seq!['_', 'm', 'a', 'i', 'n']);
        assert(a.profile_spec()[0] == a.prefix_spec()[0]);
        assert(b.profile_spec()[0] == b.prefix_spec()[0]);
        assert(a.entry_spec()[0] == a.prefix_spec()[0]);
        assert(b.entry_spec()[0] == b.prefix_spec()[0]);
    }
}

} // verus!
