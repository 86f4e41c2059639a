//! Options for the keymap-setting boundary call: an incrementally built,
//! defaulted configuration record. Every field is optional and defaults
//! to absent; finalizing lowers the record deterministically to a
//! fixed-shape record of dynamic values, absent fields lowering to nil,
//! which is the host's "unset" convention. The callback field holds the
//! handle of a closure registered with the host's callback registry, and
//! that handle is threaded through the lowered record.

use vstd::prelude::*;
use crate::object::{Object, ObjectKind};
use crate::convert::{FromObject, ToObject};
use crate::handles::LuaRef;

verus! {

/// The accumulated, validated configuration for one keymap-setting
/// call; each field is independently optional and defaults to absent.
#[derive(Clone, Debug)]
pub struct SetKeymapOpts {
    pub callback: Option<LuaRef>,
    pub desc: Option<Vec<u8>>,
    pub expr: Option<bool>,
    pub noremap: Option<bool>,
    pub nowait: Option<bool>,
    pub script: Option<bool>,
    pub silent: Option<bool>,
    pub unique: Option<bool>,
}

/// Whether every field of `o` is absent.
pub open spec fn all_unset(o: SetKeymapOpts) -> bool {
    &&& o.callback is None
    &&& o.desc is None
    &&& o.expr is None
    &&& o.noremap is None
    &&& o.nowait is None
    &&& o.script is None
    &&& o.silent is None
    &&& o.unique is None
}

impl Default for SetKeymapOpts {
    /// The configuration with every field absent.
    fn default() -> (r: Self)
        ensures
            all_unset(r),
    {
        SetKeymapOpts {
            callback: None,
            desc: None,
            expr: None,
            noremap: None,
            nowait: None,
            script: None,
            silent: None,
            unique: None,
        }
    }
}

impl SetKeymapOpts {
    /// A fresh builder with every field unset.
    pub fn builder() -> (b: SetKeymapOptsBuilder)
        ensures
            all_unset(b.opts),
    {
        SetKeymapOptsBuilder {
            opts: SetKeymapOpts {
                callback: None,
                desc: None,
                expr: None,
                noremap: None,
                nowait: None,
                script: None,
                silent: None,
                unique: None,
            },
        }
    }
}

/// Builds a `SetKeymapOpts` field by field; each setter returns the
/// builder again so calls chain, and `build` finalizes it.
#[derive(Clone, Debug)]
pub struct SetKeymapOptsBuilder {
    pub opts: SetKeymapOpts,
}

impl Default for SetKeymapOptsBuilder {
    /// A fresh builder with every field unset.
    fn default() -> (r: Self)
        ensures
            all_unset(r.opts),
    {
        SetKeymapOpts::builder()
    }
}

impl SetKeymapOptsBuilder {
    /// Sets the callback to an already registered closure's handle. The
    /// closure itself was boxed and handed to the host's registry at
    /// registration time, so a bad closure surfaces there, not at
    /// finalization.
    pub fn callback(self, fun: LuaRef) -> (b: Self)
        ensures
            b.opts == (SetKeymapOpts { callback: Some(fun), ..self.opts }),
    {
        SetKeymapOptsBuilder { opts: SetKeymapOpts { callback: Some(fun), ..self.opts } }
    }

    /// Sets the human-readable description.
    pub fn desc(self, desc: Vec<u8>) -> (b: Self)
        ensures
            b.opts == (SetKeymapOpts { desc: Some(desc), ..self.opts }),
    {
        SetKeymapOptsBuilder { opts: SetKeymapOpts { desc: Some(desc), ..self.opts } }
    }

    /// Marks the mapping as an expression mapping.
    pub fn expr(self, expr: bool) -> (b: Self)
        ensures
            b.opts == (SetKeymapOpts { expr: Some(expr), ..self.opts }),
    {
        SetKeymapOptsBuilder { opts: SetKeymapOpts { expr: Some(expr), ..self.opts } }
    }

    /// Disables remapping of the right-hand side.
    pub fn noremap(self, noremap: bool) -> (b: Self)
        ensures
            b.opts == (SetKeymapOpts { noremap: Some(noremap), ..self.opts }),
    {
        SetKeymapOptsBuilder { opts: SetKeymapOpts { noremap: Some(noremap), ..self.opts } }
    }

    /// Makes the mapping fire without waiting for longer candidates.
    pub fn nowait(self, nowait: bool) -> (b: Self)
        ensures
            b.opts == (SetKeymapOpts { nowait: Some(nowait), ..self.opts }),
    {
        SetKeymapOptsBuilder { opts: SetKeymapOpts { nowait: Some(nowait), ..self.opts } }
    }

    /// Remaps only script-local mappings.
    pub fn script(self, script: bool) -> (b: Self)
        ensures
            b.opts == (SetKeymapOpts { script: Some(script), ..self.opts }),
    {
        SetKeymapOptsBuilder { opts: SetKeymapOpts { script: Some(script), ..self.opts } }
    }

    /// Suppresses messages while the mapping runs.
    pub fn silent(self, silent: bool) -> (b: Self)
        ensures
            b.opts == (SetKeymapOpts { silent: Some(silent), ..self.opts }),
    {
        SetKeymapOptsBuilder { opts: SetKeymapOpts { silent: Some(silent), ..self.opts } }
    }

    /// Refuses to overwrite an existing mapping.
    pub fn unique(self, unique: bool) -> (b: Self)
        ensures
            b.opts == (SetKeymapOpts { unique: Some(unique), ..self.opts }),
    {
        SetKeymapOptsBuilder { opts: SetKeymapOpts { unique: Some(unique), ..self.opts } }
    }

    /// Finalizes the builder into the accumulated configuration.
    pub fn build(self) -> (opts: SetKeymapOpts)
        ensures
            opts == self.opts,
    {
        self.opts
    }
}

/// The fixed-shape record of named dynamic values a keymap-setting call
/// expects; field order and names are a contract with the host side.
#[allow(non_camel_case_types)]
#[derive(Debug)]
pub struct KeyDict_keymap {
    pub callback: Object,
    pub desc: Object,
    pub expr: Object,
    pub noremap: Object,
    pub nowait: Object,
    pub script: Object,
    pub silent: Object,
    pub unique: Object,
}

impl KeyDict_keymap {
    /// Lowers a configuration to the fixed-shape record, visiting every
    /// field in the record's order and encoding each, absent fields
    /// encoding to nil. Lowering is pure: it reads the configuration
    /// and can be repeated over the same state.
    pub fn from_opts(opts: &SetKeymapOpts) -> (kd: KeyDict_keymap)
        ensures
            opts.callback.represents(kd.callback),
            opts.desc.represents(kd.desc),
            opts.expr.represents(kd.expr),
            opts.noremap.represents(kd.noremap),
            opts.nowait.represents(kd.nowait),
            opts.script.represents(kd.script),
            opts.silent.represents(kd.silent),
            opts.unique.represents(kd.unique),
    {
        KeyDict_keymap {
            callback: opts.callback.to_obj(),
            desc: opts.desc.to_obj(),
            expr: opts.expr.to_obj(),
            noremap: opts.noremap.to_obj(),
            nowait: opts.nowait.to_obj(),
            script: opts.script.to_obj(),
            silent: opts.silent.to_obj(),
            unique: opts.unique.to_obj(),
        }
    }
}

/// Finalizing an untouched builder yields a record whose every field is
/// nil and decodes back to absent.
pub proof fn lemma_untouched_builder_lowers_to_nil(
    b: SetKeymapOptsBuilder,
    kd: KeyDict_keymap,
)
    requires
        all_unset(b.opts),
        b.opts.callback.represents(kd.callback),
        b.opts.desc.represents(kd.desc),
        b.opts.expr.represents(kd.expr),
        b.opts.noremap.represents(kd.noremap),
        b.opts.nowait.represents(kd.nowait),
        b.opts.script.represents(kd.script),
        b.opts.silent.represents(kd.silent),
        b.opts.unique.represents(kd.unique),
    ensures
        kd.callback.kind is Nil && <Option<LuaRef> as FromObject>::decoded(kd.callback, None),
        kd.desc.kind is Nil && <Option<Vec<u8>> as FromObject>::decoded(kd.desc, None),
        kd.expr.kind is Nil && <Option<bool> as FromObject>::decoded(kd.expr, None),
        kd.noremap.kind is Nil && <Option<bool> as FromObject>::decoded(kd.noremap, None),
        kd.nowait.kind is Nil && <Option<bool> as FromObject>::decoded(kd.nowait, None),
        kd.script.kind is Nil && <Option<bool> as FromObject>::decoded(kd.script, None),
        kd.silent.kind is Nil && <Option<bool> as FromObject>::decoded(kd.silent, None),
        kd.unique.kind is Nil && <Option<bool> as FromObject>::decoded(kd.unique, None),
{
}

} // verus!
