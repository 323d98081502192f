//! The operations on the store: use, add, remove, reset, and the lookup of
//! the active preset. Each works on the store in memory and, where the
//! settings document is involved, on the text of the settings file; the
//! caller persists what comes back.
use crate::cli::{preset_from_args, AddArgs};
use crate::config::{blank, first_missing_field, trimmed, Preset, SwitcherConfig};
use crate::errors::AppError;
use crate::settings::{
    applied_root, apply_preset, reset_root, reset_to_official, rewrite_outcome, settings_source,
    text_opt,
};
use vstd::prelude::*;

verus! {

/// Whether the two stores agree in version, active preset and presets.
pub open spec fn same_store(a: SwitcherConfig, b: SwitcherConfig) -> bool {
    &&& a.version == b.version
    &&& a.active_preset == b.active_preset
    &&& a.presets@ == b.presets@
}

/// Whether the active preset of the store is the one named.
pub open spec fn is_active_name(c: SwitcherConfig, name: Seq<char>) -> bool {
    c.active_preset matches Some(a) && a@ == name
}

/// The store's invariant: an active preset, where one is set, is in the store.
pub open spec fn active_in_store(c: SwitcherConfig) -> bool {
    c.active_preset matches Some(a) ==> c.presets@.contains_key(a@)
}

/// The first required field that the preset described by the arguments
/// would lack; see `first_missing_field`.
pub open spec fn args_missing_field(a: AddArgs) -> Option<Seq<char>> {
    if blank(trimmed(a.base_url@)) {
        Some("base_url"@)
    } else if blank(trimmed(a.auth_token@)) {
        Some("auth_token"@)
    } else if blank(trimmed(a.haiku@)) {
        Some("models.haiku_model"@)
    } else if blank(trimmed(a.sonnet@)) {
        Some("models.sonnet_model"@)
    } else if blank(trimmed(a.opus@)) {
        Some("models.opus_model"@)
    } else {
        None
    }
}

impl SwitcherConfig {
    /// Whether the named preset is the active one.
    pub fn is_active(&self, name: &str) -> (r: bool)
        ensures
            r == is_active_name(*self, name@),
    {
        match &self.active_preset {
            Some(active) => *active == name.to_owned(),
            None => false,
        }
    }

    /// The active preset, `None` where no preset is active; fails where the
    /// active name has no preset in the store.
    pub fn current_preset(&self) -> (r: Result<Option<&Preset>, AppError>)
        ensures
            match self.active_preset {
                None => r matches Ok(None),
                Some(a) => if self.presets@.contains_key(a@) {
                    r matches Ok(Some(p)) && *p == self.presets@[a@]
                } else {
                    r matches Err(AppError::PresetNotFound(n)) && n@ == a@
                },
            },
    {
        match &self.active_preset {
            None => Ok(None),
            Some(active) => match self.presets.get(active.as_str()) {
                Some(p) => Ok(Some(p)),
                None => Err(AppError::PresetNotFound(active.clone())),
            },
        }
    }
}

/// Activates the named preset: it must exist and be ready. Returns the new
/// text of the settings file, computed from its current text (`None` where
/// it does not exist); only once that text exists does the store mark the
/// preset active. On any failure the store is left as it was.
pub fn use_preset(
    cfg: &mut SwitcherConfig,
    preset_name: &str,
    settings_text: Option<&str>,
    settings_path: &str,
) -> (r: Result<String, AppError>)
    ensures
        !old(cfg).presets@.contains_key(preset_name@) ==> (r matches Err(
            AppError::PresetNotFound(n),
        ) && n@ == preset_name@),
        old(cfg).presets@.contains_key(preset_name@) ==> match first_missing_field(
            old(cfg).presets@[preset_name@],
        ) {
            Some(f) => r matches Err(AppError::PresetIncomplete { preset, field }) && preset@
                == preset_name@ && field@ == f,
            None => rewrite_outcome(
                settings_path@,
                settings_source(text_opt(settings_text)),
                match settings_source(text_opt(settings_text)) {
                    Some(root) => applied_root(root, old(cfg).presets@[preset_name@]),
                    None => None,
                },
                r,
            ),
        },
        r is Err ==> same_store(*old(cfg), *final(cfg)),
        r is Ok ==> is_active_name(*final(cfg), preset_name@) && final(cfg).version == old(cfg).version && final(cfg).presets@ == old(cfg).presets@,
        r is Ok ==> active_in_store(*final(cfg)),
{
    let text = match cfg.presets.get(preset_name) {
        None => return Err(AppError::PresetNotFound(preset_name.to_owned())),
        Some(preset) => {
            match preset.validate_ready(preset_name) {
                Ok(()) => {},
                Err(e) => return Err(e),
            }
            apply_preset(settings_text, settings_path, preset)?
        },
    };
    cfg.active_preset = Some(preset_name.to_owned());
    Ok(text)
}

/// Adds the preset that the arguments describe under their trimmed name:
/// the name must be new and the preset ready. Returns the name.
pub fn add_preset(cfg: &mut SwitcherConfig, args: AddArgs) -> (r: Result<String, AppError>)
    ensures
        old(cfg).presets@.contains_key(trimmed(args.name@)) ==> (r matches Err(
            AppError::PresetAlreadyExists(n),
        ) && n@ == trimmed(args.name@)),
        !old(cfg).presets@.contains_key(trimmed(args.name@)) ==> match args_missing_field(args) {
            Some(f) => r matches Err(AppError::PresetIncomplete { preset, field }) && preset@
                == trimmed(args.name@) && field@ == f,
            None => r matches Ok(n) && n@ == trimmed(args.name@),
        },
        r is Err ==> same_store(*old(cfg), *final(cfg)),
        r is Ok ==> {
            let name = trimmed(args.name@);
            &&& final(cfg).presets@ == old(cfg).presets@.insert(name, final(cfg).presets@[name])
            &&& preset_from_args(args, final(cfg).presets@[name])
            &&& final(cfg).version == old(cfg).version
            &&& final(cfg).active_preset == old(cfg).active_preset
        },
        active_in_store(*old(cfg)) ==> active_in_store(*final(cfg)),
{
    let (name, preset) = args.into_name_and_preset();
    if cfg.presets.contains_key(name.as_str()) {
        return Err(AppError::PresetAlreadyExists(name));
    }
    match preset.validate_ready(name.as_str()) {
        Ok(()) => {},
        Err(e) => return Err(e),
    }
    let ghost p = preset;
    cfg.presets.insert(name.clone(), preset);
    proof {
        assert(cfg.presets@[name@] == p);
        assert(cfg.presets@ =~= old(cfg).presets@.insert(name@, p));
    }
    Ok(name)
}

/// Drops the named preset from the store. The active preset cannot be
/// dropped: the caller must switch away from it first.
pub fn remove_preset(cfg: &mut SwitcherConfig, preset_name: &str) -> (r: Result<(), AppError>)
    ensures
        is_active_name(*old(cfg), preset_name@) ==> (r matches Err(
            AppError::CannotRemoveActivePreset(n),
        ) && n@ == preset_name@),
        !is_active_name(*old(cfg), preset_name@) && !old(cfg).presets@.contains_key(preset_name@)
            ==> (r matches Err(AppError::PresetNotFound(n)) && n@ == preset_name@),
        !is_active_name(*old(cfg), preset_name@) && old(cfg).presets@.contains_key(preset_name@)
            ==> r is Ok,
        r is Err ==> same_store(*old(cfg), *final(cfg)),
        r is Ok ==> final(cfg).presets@ == old(cfg).presets@.remove(preset_name@) && final(cfg).version == old(cfg).version && final(cfg).active_preset == old(cfg).active_preset,
        active_in_store(*old(cfg)) ==> active_in_store(*final(cfg)),
{
    if cfg.is_active(preset_name) {
        return Err(AppError::CannotRemoveActivePreset(preset_name.to_owned()));
    }
    match cfg.presets.remove(preset_name) {
        Some(_) => Ok(()),
        None => {
            assert(cfg.presets@ =~= old(cfg).presets@);
            Err(AppError::PresetNotFound(preset_name.to_owned()))
        },
    }
}

/// Removes every override from the settings document and clears the active
/// preset. Returns the new text of the settings file, computed from its
/// current text (`None` where it does not exist).
pub fn reset_official(cfg: &mut SwitcherConfig, settings_text: Option<&str>, settings_path: &str) -> (r:
    Result<String, AppError>)
    ensures
        rewrite_outcome(
            settings_path@,
            settings_source(text_opt(settings_text)),
            match settings_source(text_opt(settings_text)) {
                Some(root) => reset_root(root),
                None => None,
            },
            r,
        ),
        r is Err ==> same_store(*old(cfg), *final(cfg)),
        r is Ok ==> final(cfg).active_preset is None && final(cfg).version == old(cfg).version
            && final(cfg).presets@ == old(cfg).presets@,
        active_in_store(*old(cfg)) ==> active_in_store(*final(cfg)),
{
    let text = reset_to_official(settings_text, settings_path)?;
    cfg.active_preset = None;
    Ok(text)
}

} // verus!
