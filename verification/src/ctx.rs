use vstd::prelude::*;

verus! {

/// Collects what the Lua context is built from: the builder of the Lune
/// globals and the path of the Luau script to run.
pub struct ContextBuilder<B> {
    pub lune_ctx_builder: Option<B>,
    pub luau_input: Option<String>,
}

impl<B> ContextBuilder<B> {
    /// A builder with neither part set.
    pub fn new() -> (res: ContextBuilder<B>)
        ensures
            res.lune_ctx_builder is None,
            res.luau_input is None,
    {
        ContextBuilder { lune_ctx_builder: None, luau_input: None }
    }

    /// Sets the builder of the Lune globals.
    pub fn with_lune_ctx(self, ctx_builder: B) -> (res: ContextBuilder<B>)
        ensures
            res.lune_ctx_builder == Some(ctx_builder),
            res.luau_input == self.luau_input,
    {
        ContextBuilder { lune_ctx_builder: Some(ctx_builder), luau_input: self.luau_input }
    }

    /// Sets the path of the Luau script to run.
    pub fn with_luau_input(self, input: String) -> (res: ContextBuilder<B>)
        ensures
            res.lune_ctx_builder == self.lune_ctx_builder,
            res.luau_input == Some(input),
    {
        ContextBuilder { lune_ctx_builder: self.lune_ctx_builder, luau_input: Some(input) }
    }
}

} // verus!
