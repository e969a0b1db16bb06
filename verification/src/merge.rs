//! The merge of a priority-ordered list of sources.
//!
//! Sources are listed with the highest priority first. For every field the
//! merge takes the value of the first source that sets it; a field that no
//! source sets stays unset in the merged layer and takes its built-in value
//! when the layer is settled. The merge reads a source through its capability
//! interface only.

use crate::format::Format;
use crate::layer::{prefer, Config, Dict, Engine, EngineSettings, Walk, WalkSettings};
use crate::source::{ConfigSource, EngineSource};
use vstd::prelude::*;

verus! {

/// The first value that is set in a list of optional values, `None` if there
/// is none.
pub open spec fn first_set<T>(values: Seq<Option<T>>) -> Option<T>
    decreases values.len(),
{
    if values.len() == 0 {
        None
    } else if values.first() is Some {
        values.first()
    } else {
        first_set(values.drop_first())
    }
}

/// The first value that is set for one field in a list of layers.
pub open spec fn first_of<A, T>(layers: Seq<A>, field: spec_fn(A) -> Option<T>) -> Option<T> {
    first_set(layers.map_values(field))
}

/// The merge of dictionary layers, highest priority first.
pub open spec fn merged_dict(layers: Seq<Dict>) -> Dict {
    Dict { locale: first_of(layers, |d: Dict| d.locale) }
}

/// The merge of engine layers, highest priority first.
pub open spec fn merged_engine(layers: Seq<Engine>) -> Engine {
    Engine {
        binary: first_of(layers, |e: Engine| e.binary),
        check_filename: first_of(layers, |e: Engine| e.check_filename),
        check_file: first_of(layers, |e: Engine| e.check_file),
        dict: merged_dict(layers.map_values(|e: Engine| e.dict)),
    }
}

/// The merge of traversal layers, highest priority first.
pub open spec fn merged_walk(layers: Seq<Walk>) -> Walk {
    Walk {
        ignore_hidden: first_of(layers, |w: Walk| w.ignore_hidden),
        ignore_files: first_of(layers, |w: Walk| w.ignore_files),
        ignore_dot: first_of(layers, |w: Walk| w.ignore_dot),
        ignore_vcs: first_of(layers, |w: Walk| w.ignore_vcs),
        ignore_global: first_of(layers, |w: Walk| w.ignore_global),
        ignore_parent: first_of(layers, |w: Walk| w.ignore_parent),
    }
}

/// The merge of top-level layers, highest priority first.
pub open spec fn merged_config(layers: Seq<Config>) -> Config {
    Config { walk: merged_walk(layers.map_values(|c: Config| c.walk)) }
}

/// What each engine source of a list says, in the order of the list.
pub open spec fn engine_layers<S: EngineSource + ?Sized>(sources: Seq<&S>) -> Seq<Engine> {
    sources.map_values(|s: &S| s.as_engine())
}

/// What each top-level source of a list says, in the order of the list.
pub open spec fn config_layers<S: ConfigSource + ?Sized>(sources: Seq<&S>) -> Seq<Config> {
    sources.map_values(|s: &S| s.as_config())
}

/// Appending a value to a list changes the first set value only if none was
/// set before.
pub proof fn lemma_first_set_push<T>(values: Seq<Option<T>>, last: Option<T>)
    ensures
        first_set(values.push(last)) == prefer(first_set(values), last),
    decreases values.len(),
{
    if values.len() == 0 {
        assert(values.push(last).drop_first() =~= values);
    } else {
        assert(values.push(last).drop_first() =~= values.drop_first().push(last));
        lemma_first_set_push(values.drop_first(), last);
    }
}

/// Appending a layer to a list changes the first set value of a field only if
/// no layer set it before.
pub proof fn lemma_first_of_push<A, T>(layers: Seq<A>, last: A, field: spec_fn(A) -> Option<T>)
    ensures
        first_of(layers.push(last), field) == prefer(first_of(layers, field), field(last)),
{
    assert(layers.push(last).map_values(field) =~= layers.map_values(field).push(field(last)));
    lemma_first_set_push(layers.map_values(field), field(last));
}

/// Merging one more dictionary layer at the low end is laying the merge so
/// far over it.
pub proof fn lemma_merged_dict_push(layers: Seq<Dict>, last: Dict)
    ensures
        merged_dict(layers.push(last)) == merged_dict(layers).over(last),
{
    lemma_first_of_push(layers, last, |d: Dict| d.locale);
}

/// Merging one more engine layer at the low end is laying the merge so far
/// over it.
pub proof fn lemma_merged_engine_push(layers: Seq<Engine>, last: Engine)
    ensures
        merged_engine(layers.push(last)) == merged_engine(layers).over(last),
{
    lemma_first_of_push(layers, last, |e: Engine| e.binary);
    lemma_first_of_push(layers, last, |e: Engine| e.check_filename);
    lemma_first_of_push(layers, last, |e: Engine| e.check_file);
    let dict = |e: Engine| e.dict;
    assert(layers.push(last).map_values(dict) =~= layers.map_values(dict).push(last.dict));
    lemma_merged_dict_push(layers.map_values(dict), last.dict);
}

/// Merging one more traversal layer at the low end is laying the merge so far
/// over it.
pub proof fn lemma_merged_walk_push(layers: Seq<Walk>, last: Walk)
    ensures
        merged_walk(layers.push(last)) == merged_walk(layers).over(last),
{
    lemma_first_of_push(layers, last, |w: Walk| w.ignore_hidden);
    lemma_first_of_push(layers, last, |w: Walk| w.ignore_files);
    lemma_first_of_push(layers, last, |w: Walk| w.ignore_dot);
    lemma_first_of_push(layers, last, |w: Walk| w.ignore_vcs);
    lemma_first_of_push(layers, last, |w: Walk| w.ignore_global);
    lemma_first_of_push(layers, last, |w: Walk| w.ignore_parent);
}

/// Merging one more top-level layer at the low end is laying the merge so far
/// over it.
pub proof fn lemma_merged_config_push(layers: Seq<Config>, last: Config)
    ensures
        merged_config(layers.push(last)) == merged_config(layers).over(last),
{
    let walk = |c: Config| c.walk;
    assert(layers.push(last).map_values(walk) =~= layers.map_values(walk).push(last.walk));
    lemma_merged_walk_push(layers.map_values(walk), last.walk);
}

/// Merging a list followed by another is laying the merge of the first over
/// the merge of the second.
pub proof fn lemma_merged_config_append(high: Seq<Config>, low: Seq<Config>)
    ensures
        merged_config(high + low) == merged_config(high).over(merged_config(low)),
    decreases low.len(),
{
    if low.len() == 0 {
        assert(high + low =~= high);
    } else {
        let last = low.last();
        assert(high + low =~= (high + low.drop_last()).push(last));
        assert(low =~= low.drop_last().push(last));
        lemma_merged_config_append(high, low.drop_last());
        lemma_merged_config_push(high + low.drop_last(), last);
        lemma_merged_config_push(low.drop_last(), last);
    }
}

/// Merging a list followed by another is laying the merge of the first over
/// the merge of the second.
pub proof fn lemma_merged_engine_append(high: Seq<Engine>, low: Seq<Engine>)
    ensures
        merged_engine(high + low) == merged_engine(high).over(merged_engine(low)),
    decreases low.len(),
{
    if low.len() == 0 {
        assert(high + low =~= high);
    } else {
        let last = low.last();
        assert(high + low =~= (high + low.drop_last()).push(last));
        assert(low =~= low.drop_last().push(last));
        lemma_merged_engine_append(high, low.drop_last());
        lemma_merged_engine_push(high + low.drop_last(), last);
        lemma_merged_engine_push(low.drop_last(), last);
    }
}

/// Merges engine sources, highest priority first, into one layer.
///
/// The sources may all be of one type or stand behind `dyn EngineSource`;
/// each must be consistent. A field that no source sets stays unset.
pub fn merge_engine<S: EngineSource + ?Sized>(sources: &[&S]) -> (engine: Engine)
    requires
        forall|i: int| 0 <= i < sources@.len() ==> (#[trigger] sources@[i]).consistent(),
    ensures
        engine == merged_engine(engine_layers(sources@)),
{
    let ghost layers = engine_layers(sources@);
    let mut engine = Engine::unset();
    let mut i: usize = 0;
    while i < sources.len()
        invariant
            i <= sources@.len(),
            layers == engine_layers(sources@),
            forall|i: int| 0 <= i < sources@.len() ==> (#[trigger] sources@[i]).consistent(),
            engine == merged_engine(layers.take(i as int)),
        decreases sources@.len() - i,
    {
        engine.inherit(sources[i]);
        proof {
            assert(layers.take(i + 1) =~= layers.take(i as int).push(layers[i as int]));
            lemma_merged_engine_push(layers.take(i as int), layers[i as int]);
        }
        i += 1;
    }
    assert(layers.take(i as int) =~= layers);
    engine
}

/// Merges top-level sources, highest priority first, into one layer.
///
/// The sources may all be of one type or stand behind `dyn ConfigSource`;
/// each must be consistent. A field that no source sets stays unset.
pub fn merge_config<S: ConfigSource + ?Sized>(sources: &[&S]) -> (config: Config)
    requires
        forall|i: int| 0 <= i < sources@.len() ==> (#[trigger] sources@[i]).consistent(),
    ensures
        config == merged_config(config_layers(sources@)),
{
    let ghost layers = config_layers(sources@);
    let mut config = Config::unset();
    let mut i: usize = 0;
    while i < sources.len()
        invariant
            i <= sources@.len(),
            layers == config_layers(sources@),
            forall|i: int| 0 <= i < sources@.len() ==> (#[trigger] sources@[i]).consistent(),
            config == merged_config(layers.take(i as int)),
        decreases sources@.len() - i,
    {
        config.inherit(sources[i]);
        proof {
            assert(layers.take(i + 1) =~= layers.take(i as int).push(layers[i as int]));
            lemma_merged_config_push(layers.take(i as int), layers[i as int]);
        }
        i += 1;
    }
    assert(layers.take(i as int) =~= layers);
    config
}

/// The effective configuration: every field resolved.
#[derive(Debug, Clone, Copy, PartialEq, Eq, Structural)]
pub struct Settings {
    pub walk: WalkSettings,
    pub engine: EngineSettings,
    pub format: Format,
}

impl Settings {
    /// The built-in settings, with the report format used when none is asked
    /// for.
    pub open spec fn builtin() -> Settings {
        Settings {
            walk: WalkSettings::builtin(),
            engine: EngineSettings::builtin(),
            format: Format::Long,
        }
    }

    /// The settings that lists of layers resolve to: each field has the value
    /// of the first layer that sets it, or its built-in value if none does.
    pub open spec fn resolved(
        config: Seq<Config>,
        engine: Seq<Engine>,
        format: Option<Format>,
    ) -> Settings {
        Settings {
            walk: merged_config(config).walk.settled(),
            engine: merged_engine(engine).settled(),
            format: match format {
                Some(f) => f,
                None => Format::Long,
            },
        }
    }

    /// Resolves the effective configuration from the sources of each domain,
    /// highest priority first, and from the report format that was asked for.
    ///
    /// Every source must be consistent. The built-in defaults need not be
    /// listed: a field that no source sets takes its built-in value.
    pub fn resolve<C: ConfigSource + ?Sized, E: EngineSource + ?Sized>(
        config: &[&C],
        engine: &[&E],
        format: Option<Format>,
    ) -> (settings: Settings)
        requires
            forall|i: int| 0 <= i < config@.len() ==> (#[trigger] config@[i]).consistent(),
            forall|i: int| 0 <= i < engine@.len() ==> (#[trigger] engine@[i]).consistent(),
        ensures
            settings == Settings::resolved(config_layers(config@), engine_layers(engine@), format),
    {
        Settings {
            walk: merge_config(config).walk.settle(),
            engine: merge_engine(engine).settle(),
            format: Format::or_default(format),
        }
    }
}

impl Default for Settings {
    /// The built-in settings: what is in effect when no source says anything.
    fn default() -> (settings: Settings)
        ensures
            settings == Settings::builtin(),
    {
        Settings {
            walk: WalkSettings::default(),
            engine: EngineSettings::default(),
            format: Format::default(),
        }
    }
}

} // verus!
