//! What holds of flag resolution and of the merge, for every input.

use crate::args::{FileArgs, WalkArgs};
use crate::flag::{tri_state, Polarity};
use crate::format::Format;
use crate::layer::{Config, Dict, Engine, Walk};
use crate::locale::Locale;
use crate::merge::{
    config_layers, engine_layers, first_of, first_set, lemma_merged_config_append,
    lemma_merged_config_push, lemma_merged_engine_append, lemma_merged_engine_push, merged_config,
    merged_engine, Settings,
};
use crate::source::{ConfigSource, EngineSource, WalkSource};
use crate::text::{ascii_lower, same_ignoring_case};
use vstd::prelude::*;

verus! {

/// A paired flag group resolves by its table: the positive flag alone gives
/// one value, the negative flag alone gives the opposite value, and no flag
/// gives nothing. With direct polarity the positive flag gives `true`, with
/// inverted polarity it gives `false`.
pub proof fn pair_follows_table(polarity: Polarity)
    ensures
        tri_state(true, false, polarity) == Some(polarity.when_positive()),
        tri_state(false, true, polarity) == Some(!polarity.when_positive()),
        tri_state(false, false, polarity) == None::<bool>,
        polarity.when_positive() <==> polarity == Polarity::Direct,
{
}

/// Each engine pair of consistent arguments follows the table with direct
/// polarity, and the locale is passed on as it was given.
pub proof fn engine_pairs_follow_table(args: FileArgs)
    requires
        args.consistent(),
    ensures
        args.as_engine().binary == if args.binary {
            Some(true)
        } else if args.no_binary {
            Some(false)
        } else {
            None
        },
        args.as_engine().check_filename == if args.check_filenames {
            Some(true)
        } else if args.no_check_filenames {
            Some(false)
        } else {
            None
        },
        args.as_engine().check_file == if args.check_files {
            Some(true)
        } else if args.no_check_files {
            Some(false)
        } else {
            None
        },
        args.as_engine().dict.locale == args.locale,
{
}

/// Each traversal pair of consistent arguments follows the table with
/// inverted polarity: the flag that lifts a restriction switches the field
/// off, its counterpart switches the field on.
pub proof fn walk_pairs_follow_table(args: WalkArgs)
    requires
        args.consistent(),
    ensures
        args.as_walk().ignore_hidden == if args.hidden {
            Some(false)
        } else if args.no_hidden {
            Some(true)
        } else {
            None
        },
        args.as_walk().ignore_files == if args.no_ignore {
            Some(false)
        } else if args.ignore {
            Some(true)
        } else {
            None
        },
        args.as_walk().ignore_dot == if args.no_ignore_dot {
            Some(false)
        } else if args.ignore_dot {
            Some(true)
        } else {
            None
        },
        args.as_walk().ignore_vcs == if args.no_ignore_vcs {
            Some(false)
        } else if args.ignore_vcs {
            Some(true)
        } else {
            None
        },
        args.as_walk().ignore_global == if args.no_ignore_global {
            Some(false)
        } else if args.ignore_global {
            Some(true)
        } else {
            None
        },
        args.as_walk().ignore_parent == if args.no_ignore_parent {
            Some(false)
        } else if args.ignore_parent {
            Some(true)
        } else {
            None
        },
{
}

/// Precedence, for a list of optional values: the value at the first
/// position that sets one is the first set value, whatever comes after it.
pub proof fn first_setter_wins<T>(values: Seq<Option<T>>, i: int)
    requires
        0 <= i < values.len(),
        values[i] is Some,
        forall|j: int| 0 <= j < i ==> values[j] is None,
    ensures
        first_set(values) == values[i],
    decreases i,
{
    if i > 0 {
        assert(values[0] is None);
        assert forall|j: int| 0 <= j < i - 1 implies values.drop_first()[j] is None by {
            assert(values[j + 1] is None);
        }
        first_setter_wins(values.drop_first(), i - 1);
    }
}

/// Precedence, for any field of any domain: the merged value of the field is
/// the one given by the first source that sets it, whatever the sources
/// below it say.
pub proof fn first_source_to_set_wins<A, T>(
    layers: Seq<A>,
    field: spec_fn(A) -> Option<T>,
    i: int,
)
    requires
        0 <= i < layers.len(),
        field(layers[i]) is Some,
        forall|j: int| 0 <= j < i ==> field(layers[j]) is None,
    ensures
        first_of(layers, field) == field(layers[i]),
{
    first_setter_wins(layers.map_values(field), i);
}

/// Precedence, for the source of highest priority: a field that it sets has
/// its value in the merge.
pub proof fn highest_priority_wins<A, T>(layers: Seq<A>, field: spec_fn(A) -> Option<T>)
    requires
        layers.len() > 0,
        field(layers[0]) is Some,
    ensures
        first_of(layers, field) == field(layers[0]),
{
    first_source_to_set_wins(layers, field, 0);
}

/// Precedence, for whole layers: the merge is the first layer laid over the
/// merge of the layers below it, so whatever the first layer sets stands.
pub proof fn merge_is_first_over_rest(config: Seq<Config>, engine: Seq<Engine>)
    ensures
        config.len() > 0 ==> merged_config(config) == config.first().over(
            merged_config(config.drop_first()),
        ),
        engine.len() > 0 ==> merged_engine(engine) == engine.first().over(
            merged_engine(engine.drop_first()),
        ),
{
    if config.len() > 0 {
        let first = seq![config.first()];
        assert(first + config.drop_first() =~= config);
        assert(first =~= Seq::<Config>::empty().push(config.first()));
        lemma_merged_config_push(Seq::<Config>::empty(), config.first());
        lemma_merged_config_append(first, config.drop_first());
    }
    if engine.len() > 0 {
        let first = seq![engine.first()];
        assert(first + engine.drop_first() =~= engine);
        assert(first =~= Seq::<Engine>::empty().push(engine.first()));
        lemma_merged_engine_push(Seq::<Engine>::empty(), engine.first());
        lemma_merged_engine_append(first, engine.drop_first());
    }
}

/// Precedence, field by field: whatever the source of highest priority sets
/// is the value in effect, whatever the sources below it say.
pub proof fn highest_priority_source_wins(
    config: Seq<Config>,
    engine: Seq<Engine>,
    format: Option<Format>,
)
    ensures
        config.len() > 0 ==> ({
            let top = config[0].walk;
            let walk = Settings::resolved(config, engine, format).walk;
            &&& top.ignore_hidden matches Some(v) ==> walk.ignore_hidden == v
            &&& top.ignore_files matches Some(v) ==> walk.ignore_files == v
            &&& top.ignore_dot matches Some(v) ==> walk.ignore_dot == v
            &&& top.ignore_vcs matches Some(v) ==> walk.ignore_vcs == v
            &&& top.ignore_global matches Some(v) ==> walk.ignore_global == v
            &&& top.ignore_parent matches Some(v) ==> walk.ignore_parent == v
        }),
        engine.len() > 0 ==> ({
            let top = engine[0];
            let settings = Settings::resolved(config, engine, format).engine;
            &&& top.binary matches Some(v) ==> settings.binary == v
            &&& top.check_filename matches Some(v) ==> settings.check_filename == v
            &&& top.check_file matches Some(v) ==> settings.check_file == v
            &&& top.dict.locale matches Some(v) ==> settings.locale == Some(v)
        }),
        format matches Some(f) ==> Settings::resolved(config, engine, format).format == f,
{
    merge_is_first_over_rest(config, engine);
}

/// Fallthrough, for any field of any domain: a field that no source sets is
/// unset in the merge.
pub proof fn unset_everywhere_stays_unset<A, T>(layers: Seq<A>, field: spec_fn(A) -> Option<T>)
    requires
        forall|i: int| 0 <= i < layers.len() ==> field(layers[i]) is None,
    ensures
        first_of(layers, field) is None,
    decreases layers.len(),
{
    if layers.len() > 0 {
        assert(field(layers[0]) is None);
        assert(layers.map_values(field).drop_first() =~= layers.drop_first().map_values(field));
        assert forall|i: int| 0 <= i < layers.drop_first().len() implies field(
            layers.drop_first()[i],
        ) is None by {
            assert(field(layers[i + 1]) is None);
        }
        unset_everywhere_stays_unset(layers.drop_first(), field);
    }
}

/// Fallthrough, for the settled values: a field that is unset in a layer
/// settles to its built-in value, and a field that is set settles to the
/// value it was set to.
pub proof fn unset_settles_to_builtin(walk: Walk, engine: Engine)
    ensures
        walk.settled().ignore_hidden == match walk.ignore_hidden {
            Some(v) => v,
            None => true,
        },
        walk.settled().ignore_files == match walk.ignore_files {
            Some(v) => v,
            None => true,
        },
        walk.settled().ignore_dot == match walk.ignore_dot {
            Some(v) => v,
            None => true,
        },
        walk.settled().ignore_vcs == match walk.ignore_vcs {
            Some(v) => v,
            None => true,
        },
        walk.settled().ignore_global == match walk.ignore_global {
            Some(v) => v,
            None => true,
        },
        walk.settled().ignore_parent == match walk.ignore_parent {
            Some(v) => v,
            None => true,
        },
        engine.settled().binary == match engine.binary {
            Some(v) => v,
            None => false,
        },
        engine.settled().check_filename == match engine.check_filename {
            Some(v) => v,
            None => true,
        },
        engine.settled().check_file == match engine.check_file {
            Some(v) => v,
            None => true,
        },
        engine.settled().locale == engine.dict.locale,
{
}

/// Fallthrough, field by field: a field that no source sets has its built-in
/// value in effect. Hidden entries are skipped, every kind of ignore file is
/// respected, binary files are left alone, file names and file contents are
/// checked, no locale is imposed, and the report format is `Long`.
pub proof fn unset_field_takes_builtin_value(
    config: Seq<Config>,
    engine: Seq<Engine>,
    format: Option<Format>,
)
    ensures
        ({
            let walk = Settings::resolved(config, engine, format).walk;
            &&& (forall|i: int| 0 <= i < config.len() ==> config[i].walk.ignore_hidden is None)
                ==> walk.ignore_hidden == true
            &&& (forall|i: int| 0 <= i < config.len() ==> config[i].walk.ignore_files is None)
                ==> walk.ignore_files == true
            &&& (forall|i: int| 0 <= i < config.len() ==> config[i].walk.ignore_dot is None)
                ==> walk.ignore_dot == true
            &&& (forall|i: int| 0 <= i < config.len() ==> config[i].walk.ignore_vcs is None)
                ==> walk.ignore_vcs == true
            &&& (forall|i: int| 0 <= i < config.len() ==> config[i].walk.ignore_global is None)
                ==> walk.ignore_global == true
            &&& (forall|i: int| 0 <= i < config.len() ==> config[i].walk.ignore_parent is None)
                ==> walk.ignore_parent == true
        }),
        ({
            let settings = Settings::resolved(config, engine, format).engine;
            &&& (forall|i: int| 0 <= i < engine.len() ==> engine[i].binary is None)
                ==> settings.binary == false
            &&& (forall|i: int| 0 <= i < engine.len() ==> engine[i].check_filename is None)
                ==> settings.check_filename == true
            &&& (forall|i: int| 0 <= i < engine.len() ==> engine[i].check_file is None)
                ==> settings.check_file == true
            &&& (forall|i: int| 0 <= i < engine.len() ==> engine[i].dict.locale is None)
                ==> settings.locale is None
        }),
        format is None ==> Settings::resolved(config, engine, format).format == Format::Long,
{
    let walks = config.map_values(|c: Config| c.walk);
    let dicts = engine.map_values(|e: Engine| e.dict);
    if forall|i: int| 0 <= i < config.len() ==> config[i].walk.ignore_hidden is None {
        unset_everywhere_stays_unset(walks, |w: Walk| w.ignore_hidden);
    }
    if forall|i: int| 0 <= i < config.len() ==> config[i].walk.ignore_files is None {
        unset_everywhere_stays_unset(walks, |w: Walk| w.ignore_files);
    }
    if forall|i: int| 0 <= i < config.len() ==> config[i].walk.ignore_dot is None {
        unset_everywhere_stays_unset(walks, |w: Walk| w.ignore_dot);
    }
    if forall|i: int| 0 <= i < config.len() ==> config[i].walk.ignore_vcs is None {
        unset_everywhere_stays_unset(walks, |w: Walk| w.ignore_vcs);
    }
    if forall|i: int| 0 <= i < config.len() ==> config[i].walk.ignore_global is None {
        unset_everywhere_stays_unset(walks, |w: Walk| w.ignore_global);
    }
    if forall|i: int| 0 <= i < config.len() ==> config[i].walk.ignore_parent is None {
        unset_everywhere_stays_unset(walks, |w: Walk| w.ignore_parent);
    }
    if forall|i: int| 0 <= i < engine.len() ==> engine[i].binary is None {
        unset_everywhere_stays_unset(engine, |e: Engine| e.binary);
    }
    if forall|i: int| 0 <= i < engine.len() ==> engine[i].check_filename is None {
        unset_everywhere_stays_unset(engine, |e: Engine| e.check_filename);
    }
    if forall|i: int| 0 <= i < engine.len() ==> engine[i].check_file is None {
        unset_everywhere_stays_unset(engine, |e: Engine| e.check_file);
    }
    if forall|i: int| 0 <= i < engine.len() ==> engine[i].dict.locale is None {
        unset_everywhere_stays_unset(dicts, |d: Dict| d.locale);
    }
}

/// Fallthrough, for the effective configuration: where no source sets
/// anything and no format is asked for, every field has its built-in value
/// and the format is `Long`.
pub proof fn nothing_set_resolves_to_builtin(config: Seq<Config>, engine: Seq<Engine>)
    requires
        forall|i: int| 0 <= i < config.len() ==> config[i] == Config::unset(),
        forall|i: int| 0 <= i < engine.len() ==> engine[i] == Engine::unset(),
    ensures
        Settings::resolved(config, engine, None) == Settings::builtin(),
{
    let walks = config.map_values(|c: Config| c.walk);
    unset_everywhere_stays_unset(walks, |w: Walk| w.ignore_hidden);
    unset_everywhere_stays_unset(walks, |w: Walk| w.ignore_files);
    unset_everywhere_stays_unset(walks, |w: Walk| w.ignore_dot);
    unset_everywhere_stays_unset(walks, |w: Walk| w.ignore_vcs);
    unset_everywhere_stays_unset(walks, |w: Walk| w.ignore_global);
    unset_everywhere_stays_unset(walks, |w: Walk| w.ignore_parent);
    unset_everywhere_stays_unset(engine, |e: Engine| e.binary);
    unset_everywhere_stays_unset(engine, |e: Engine| e.check_filename);
    unset_everywhere_stays_unset(engine, |e: Engine| e.check_file);
    unset_everywhere_stays_unset(engine.map_values(|e: Engine| e.dict), |d: Dict| d.locale);
}

/// The built-in defaults may stand last in a list of sources or be left out:
/// the settled values are the same.
pub proof fn defaults_last_change_nothing(config: Seq<Config>, engine: Seq<Engine>)
    ensures
        merged_config(config.push(Config::defaults())).walk.settled() == merged_config(
            config,
        ).walk.settled(),
        merged_engine(engine.push(Engine::defaults())).settled() == merged_engine(
            engine,
        ).settled(),
{
    lemma_merged_config_push(config, Config::defaults());
    lemma_merged_engine_push(engine, Engine::defaults());
}

/// The merge depends on nothing but what the sources say and the order they
/// stand in: two lists whose sources say the same, position by position,
/// merge to the same layers, whatever the sources are made of.
pub proof fn merge_depends_on_layers_only<
    CA: ConfigSource + ?Sized,
    CB: ConfigSource + ?Sized,
    EA: EngineSource + ?Sized,
    EB: EngineSource + ?Sized,
>(
    config_a: Seq<&CA>,
    config_b: Seq<&CB>,
    engine_a: Seq<&EA>,
    engine_b: Seq<&EB>,
    format: Option<Format>,
)
    requires
        config_a.len() == config_b.len(),
        forall|i: int| 0 <= i < config_a.len() ==> config_a[i].as_config() == config_b[i].as_config(),
        engine_a.len() == engine_b.len(),
        forall|i: int| 0 <= i < engine_a.len() ==> engine_a[i].as_engine() == engine_b[i].as_engine(),
    ensures
        merged_config(config_layers(config_a)) == merged_config(config_layers(config_b)),
        merged_engine(engine_layers(engine_a)) == merged_engine(engine_layers(engine_b)),
        Settings::resolved(config_layers(config_a), engine_layers(engine_a), format)
            == Settings::resolved(config_layers(config_b), engine_layers(engine_b), format),
{
    assert(config_layers(config_a) =~= config_layers(config_b));
    assert(engine_layers(engine_a) =~= engine_layers(engine_b));
}

/// Merging is idempotent: a list of layers followed by itself merges to what
/// the list alone merges to.
pub proof fn merging_twice_changes_nothing(config: Seq<Config>, engine: Seq<Engine>)
    ensures
        merged_config(config + config) == merged_config(config),
        merged_engine(engine + engine) == merged_engine(engine),
{
    lemma_merged_config_append(config, config);
    lemma_merged_engine_append(engine, engine);
    let c = merged_config(config);
    let e = merged_engine(engine);
    assert(c.over(c) == c);
    assert(e.over(e) == e);
}

/// The selectors are closed: a text is read as a format only if it spells the
/// name of that format in some letter case, as a locale only if it is the
/// identifier of that locale, and every other text is rejected.
pub proof fn only_names_are_accepted(text: Seq<char>)
    ensures
        forall|f: Format| Format::named(text) == Some(f) <==> same_ignoring_case(text, f.label()),
        Format::named(text) is None <==> forall|f: Format| !same_ignoring_case(text, f.label()),
        forall|l: Locale| Locale::named(text) == Some(l) <==> text == l.label(),
        Locale::named(text) is None <==> forall|l: Locale| text != l.label(),
{
    lemma_names_differ();
    assert forall|f: Format| same_ignoring_case(text, f.label()) implies Format::named(text)
        == Some(f) by {
        let first = Format::named(text)->0;
        assert(same_ignoring_case(text, first.label()));
        assert(text.len() > 0);
        assert(ascii_lower(text[0]) == ascii_lower(f.label()[0]));
        assert(ascii_lower(text[0]) == ascii_lower(first.label()[0]));
    }
}

/// Every format is read back from its own name and every locale from its own
/// identifier.
pub proof fn names_read_back(format: Format, locale: Locale)
    ensures
        Format::named(format.label()) == Some(format),
        Locale::named(locale.label()) == Some(locale),
{
    only_names_are_accepted(format.label());
    only_names_are_accepted(locale.label());
}

/// Each format is bound to a reporting strategy of its own.
pub proof fn strategies_are_distinct(a: Format, b: Format)
    ensures
        a.strategy() == b.strategy() <==> a == b,
{
}

/// No two formats have names of the same length that begin with the same
/// letter, and no two locales share an identifier.
pub proof fn lemma_names_differ()
    ensures
        forall|a: Format, b: Format|
            a.label().len() == b.label().len() && ascii_lower(a.label()[0]) == ascii_lower(
                b.label()[0],
            ) ==> a == b,
        forall|a: Format| a.label().len() > 0,
        forall|a: Locale, b: Locale| a.label() == b.label() ==> a == b,
{
    reveal_strlit("Silent");
    reveal_strlit("Brief");
    reveal_strlit("Long");
    reveal_strlit("Json");
    reveal_strlit("en");
    reveal_strlit("en-us");
    reveal_strlit("en-gb");
    reveal_strlit("en-ca");
    reveal_strlit("en-au");
    assert("Silent"@.len() == 6 && "Brief"@.len() == 5);
    assert("Long"@.len() == 4 && "Long"@[0] == 'L');
    assert("Json"@.len() == 4 && "Json"@[0] == 'J');
    assert("en"@.len() == 2);
    assert("en-us"@.len() == 5 && "en-us"@[3] == 'u');
    assert("en-gb"@.len() == 5 && "en-gb"@[3] == 'g');
    assert("en-ca"@.len() == 5 && "en-ca"@[3] == 'c');
    assert("en-au"@.len() == 5 && "en-au"@[3] == 'a');
}

} // verus!
