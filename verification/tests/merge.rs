use layered_config::args::{ConfigArgs, FileArgs, WalkArgs};
use layered_config::format::{Format, Reporter};
use layered_config::layer::{Config, Dict, Engine, EngineSettings, Walk, WalkSettings};
use layered_config::locale::Locale;
use layered_config::merge::{merge_config, merge_engine, Settings};
use layered_config::source::{ConfigSource, DictSource, EngineSource, WalkSource};

fn builtin_walk() -> WalkSettings {
    WalkSettings {
        ignore_hidden: true,
        ignore_files: true,
        ignore_dot: true,
        ignore_vcs: true,
        ignore_global: true,
        ignore_parent: true,
    }
}

#[test]
fn builtin_settings() {
    assert_eq!(WalkSettings::default(), builtin_walk());
    assert_eq!(EngineSettings::default(), builtin_engine());
    assert_eq!(
        Settings::default(),
        Settings { walk: builtin_walk(), engine: builtin_engine(), format: Format::Long }
    );
}

fn no_config() -> Vec<&'static dyn ConfigSource> {
    Vec::new()
}

fn no_engine() -> Vec<&'static dyn EngineSource> {
    Vec::new()
}

fn builtin_engine() -> EngineSettings {
    EngineSettings { binary: false, check_filename: true, check_file: true, locale: None }
}

#[test]
fn unset_layers_set_nothing() {
    assert_eq!(Dict::unset(), Dict { locale: None });
    assert_eq!(
        Engine::unset(),
        Engine { binary: None, check_filename: None, check_file: None, dict: Dict { locale: None } }
    );
    assert_eq!(
        Walk::unset(),
        Walk {
            ignore_hidden: None,
            ignore_files: None,
            ignore_dot: None,
            ignore_vcs: None,
            ignore_global: None,
            ignore_parent: None,
        }
    );
    assert_eq!(Config::unset(), Config { walk: Walk::unset() });
}

#[test]
fn default_layers_set_the_builtin_values() {
    assert_eq!(
        Walk::defaults(),
        Walk {
            ignore_hidden: Some(true),
            ignore_files: Some(true),
            ignore_dot: Some(true),
            ignore_vcs: Some(true),
            ignore_global: Some(true),
            ignore_parent: Some(true),
        }
    );
    assert_eq!(
        Engine::defaults(),
        Engine {
            binary: Some(false),
            check_filename: Some(true),
            check_file: Some(true),
            dict: Dict { locale: None },
        }
    );
    assert_eq!(Config::defaults(), Config { walk: Walk::defaults() });
}

#[test]
fn layers_answer_with_their_own_fields() {
    let walk = Walk { ignore_hidden: Some(false), ignore_vcs: Some(true), ..Walk::unset() };
    assert_eq!(walk.ignore_hidden(), Some(false));
    assert_eq!(walk.ignore_files(), None);
    assert_eq!(walk.ignore_dot(), None);
    assert_eq!(walk.ignore_vcs(), Some(true));
    assert_eq!(walk.ignore_global(), None);
    assert_eq!(walk.ignore_parent(), None);
    let engine = Engine {
        binary: Some(true),
        check_file: Some(false),
        dict: Dict { locale: Some(Locale::EnCa) },
        ..Engine::unset()
    };
    assert_eq!(engine.binary(), Some(true));
    assert_eq!(engine.check_filename(), None);
    assert_eq!(engine.check_file(), Some(false));
    assert_eq!(engine.dict().expect("a layer has a dictionary").locale(), Some(Locale::EnCa));
    let config = Config { walk };
    assert_eq!(config.walk().expect("a layer has a traversal").ignore_hidden(), Some(false));
}

#[test]
fn settling_fills_unset_fields_with_builtin_values() {
    assert_eq!(Walk::unset().settle(), builtin_walk());
    assert_eq!(Engine::unset().settle(), builtin_engine());
    assert_eq!(Walk::defaults().settle(), builtin_walk());
    assert_eq!(Engine::defaults().settle(), builtin_engine());
}

#[test]
fn settling_keeps_what_is_set() {
    let walk = Walk { ignore_hidden: Some(false), ignore_global: Some(false), ..Walk::unset() };
    assert_eq!(
        walk.settle(),
        WalkSettings { ignore_hidden: false, ignore_global: false, ..builtin_walk() }
    );
    let engine = Engine {
        binary: Some(true),
        check_filename: Some(false),
        check_file: Some(false),
        dict: Dict { locale: Some(Locale::EnAu) },
    };
    assert_eq!(
        engine.settle(),
        EngineSettings {
            binary: true,
            check_filename: false,
            check_file: false,
            locale: Some(Locale::EnAu),
        }
    );
}

#[test]
fn inherit_fills_only_what_is_unset() {
    let mut walk = Walk { ignore_hidden: Some(false), ..Walk::unset() };
    let lower = Walk { ignore_hidden: Some(true), ignore_dot: Some(false), ..Walk::unset() };
    walk.inherit(&lower);
    assert_eq!(
        walk,
        Walk { ignore_hidden: Some(false), ignore_dot: Some(false), ..Walk::unset() }
    );
    let mut dict = Dict::unset();
    dict.inherit(&Dict { locale: Some(Locale::EnUs) });
    dict.inherit(&Dict { locale: Some(Locale::EnGb) });
    assert_eq!(dict, Dict { locale: Some(Locale::EnUs) });
}

#[test]
fn inherit_reads_command_line_arguments() {
    let args = WalkArgs { hidden: true, ignore_vcs: true, ..WalkArgs::default() };
    let mut walk = Walk::unset();
    walk.inherit(&args);
    assert_eq!(
        walk,
        Walk { ignore_hidden: Some(false), ignore_vcs: Some(true), ..Walk::unset() }
    );
    let overrides = FileArgs {
        no_binary: true,
        no_check_files: true,
        locale: Some(Locale::En),
        ..FileArgs::default()
    };
    let mut engine = Engine::unset();
    engine.inherit(&overrides);
    assert_eq!(
        engine,
        Engine {
            binary: Some(false),
            check_filename: None,
            check_file: Some(false),
            dict: Dict { locale: Some(Locale::En) },
        }
    );
    let mut config = Config::unset();
    config.inherit(&ConfigArgs { walk: args });
    assert_eq!(config, Config { walk });
}

#[test]
fn merge_of_no_source_sets_nothing() {
    assert_eq!(merge_config(&no_config()), Config::unset());
    assert_eq!(merge_engine(&no_engine()), Engine::unset());
}

#[test]
fn highest_priority_source_wins() {
    let args = ConfigArgs { walk: WalkArgs { hidden: true, ..WalkArgs::default() } };
    let file = Config { walk: Walk { ignore_hidden: Some(true), ..Walk::unset() } };
    let defaults = Config::defaults();
    let sources: Vec<&dyn ConfigSource> = vec![&args, &file, &defaults];
    assert_eq!(merge_config(&sources).walk.ignore_hidden, Some(false));
}

#[test]
fn first_source_that_sets_a_field_wins() {
    let top = Engine::unset();
    let middle = Engine { check_filename: Some(false), ..Engine::unset() };
    let low = Engine { check_filename: Some(true), binary: Some(true), ..Engine::unset() };
    let sources: Vec<&dyn EngineSource> = vec![&top, &middle, &low];
    let merged = merge_engine(&sources);
    assert_eq!(merged.check_filename, Some(false));
    assert_eq!(merged.binary, Some(true));
    assert_eq!(merged.check_file, None);
}

#[test]
fn every_field_is_merged_on_its_own() {
    let top = Walk { ignore_files: Some(false), ..Walk::unset() };
    let middle = Walk { ignore_files: Some(true), ignore_parent: Some(false), ..Walk::unset() };
    let low = Walk {
        ignore_hidden: Some(false),
        ignore_parent: Some(true),
        ignore_global: Some(false),
        ..Walk::unset()
    };
    let top = Config { walk: top };
    let middle = Config { walk: middle };
    let low = Config { walk: low };
    let sources: Vec<&dyn ConfigSource> = vec![&top, &middle, &low];
    assert_eq!(
        merge_config(&sources).walk,
        Walk {
            ignore_hidden: Some(false),
            ignore_files: Some(false),
            ignore_dot: None,
            ignore_vcs: None,
            ignore_global: Some(false),
            ignore_parent: Some(false),
        }
    );
}

#[test]
fn sources_of_one_type_need_no_indirection() {
    let top = Engine { check_file: Some(false), ..Engine::unset() };
    let low = Engine { check_file: Some(true), binary: Some(true), ..Engine::unset() };
    let merged = merge_engine(&[&top, &low]);
    assert_eq!(
        merged,
        Engine { binary: Some(true), check_file: Some(false), ..Engine::unset() }
    );
    let args = ConfigArgs { walk: WalkArgs { no_ignore: true, ..WalkArgs::default() } };
    assert_eq!(
        merge_config(&[&args]),
        Config { walk: Walk { ignore_files: Some(false), ..Walk::unset() } }
    );
}

#[test]
fn order_of_sources_decides() {
    let on = Engine { binary: Some(true), ..Engine::unset() };
    let off = Engine { binary: Some(false), ..Engine::unset() };
    let sources: Vec<&dyn EngineSource> = vec![&on, &off];
    assert_eq!(merge_engine(&sources).binary, Some(true));
    let sources: Vec<&dyn EngineSource> = vec![&off, &on];
    assert_eq!(merge_engine(&sources).binary, Some(false));
}

#[test]
fn locale_is_merged_like_any_field() {
    let args = FileArgs::default();
    let file = Engine { dict: Dict { locale: Some(Locale::EnGb) }, ..Engine::unset() };
    let other = Engine { dict: Dict { locale: Some(Locale::EnUs) }, ..Engine::unset() };
    let sources: Vec<&dyn EngineSource> = vec![&args, &file, &other];
    assert_eq!(merge_engine(&sources).dict.locale, Some(Locale::EnGb));
    let args = FileArgs { locale: Some(Locale::EnAu), ..FileArgs::default() };
    let sources: Vec<&dyn EngineSource> = vec![&args, &file, &other];
    assert_eq!(merge_engine(&sources).dict.locale, Some(Locale::EnAu));
}

#[test]
fn unset_everywhere_resolves_to_builtin_values() {
    let args = ConfigArgs::default();
    let overrides = FileArgs::default();
    let file = Config::unset();
    let file_engine = Engine::unset();
    let config: Vec<&dyn ConfigSource> = vec![&args, &file];
    let engine: Vec<&dyn EngineSource> = vec![&overrides, &file_engine];
    assert_eq!(merge_config(&config), Config::unset());
    assert_eq!(merge_engine(&engine), Engine::unset());
    assert_eq!(
        Settings::resolve(&config, &engine, None),
        Settings { walk: builtin_walk(), engine: builtin_engine(), format: Format::Long }
    );
}

#[test]
fn no_source_at_all_resolves_to_builtin_values() {
    assert_eq!(
        Settings::resolve(&no_config(), &no_engine(), None),
        Settings { walk: builtin_walk(), engine: builtin_engine(), format: Format::Long }
    );
}

#[test]
fn merging_twice_gives_the_same_configuration() {
    let args = ConfigArgs {
        walk: WalkArgs { no_hidden: true, no_ignore_vcs: true, ..WalkArgs::default() },
    };
    let overrides = FileArgs { binary: true, ..FileArgs::default() };
    let file = Config { walk: Walk { ignore_dot: Some(false), ..Walk::unset() } };
    let file_engine = Engine { check_file: Some(false), ..Engine::unset() };
    let config: Vec<&dyn ConfigSource> = vec![&args, &file];
    let engine: Vec<&dyn EngineSource> = vec![&overrides, &file_engine];
    let first = Settings::resolve(&config, &engine, Some(Format::Brief));
    let second = Settings::resolve(&config, &engine, Some(Format::Brief));
    assert_eq!(first, second);
    assert_eq!(
        first,
        Settings {
            walk: WalkSettings {
                ignore_hidden: true,
                ignore_files: true,
                ignore_dot: false,
                ignore_vcs: false,
                ignore_global: true,
                ignore_parent: true,
            },
            engine: EngineSettings {
                binary: true,
                check_filename: true,
                check_file: false,
                locale: None,
            },
            format: Format::Brief,
        }
    );
}

#[test]
fn list_followed_by_itself_merges_to_the_same() {
    let top = Engine { binary: Some(true), ..Engine::unset() };
    let low = Engine {
        binary: Some(false),
        check_file: Some(false),
        dict: Dict { locale: Some(Locale::EnCa) },
        ..Engine::unset()
    };
    let once: Vec<&dyn EngineSource> = vec![&top, &low];
    let twice: Vec<&dyn EngineSource> = vec![&top, &low, &top, &low];
    assert_eq!(merge_engine(&once), merge_engine(&twice));
}

#[test]
fn merged_layer_merged_again_is_unchanged() {
    let top = Config { walk: Walk { ignore_hidden: Some(false), ..Walk::unset() } };
    let low = Config { walk: Walk { ignore_hidden: Some(true), ignore_dot: Some(true), ..Walk::unset() } };
    let sources: Vec<&dyn ConfigSource> = vec![&top, &low];
    let merged = merge_config(&sources);
    let again: Vec<&dyn ConfigSource> = vec![&merged, &top, &low];
    assert_eq!(merge_config(&again), merged);
}

#[test]
fn sources_that_say_the_same_merge_to_the_same() {
    let args = WalkArgs { hidden: true, ignore_parent: true, ..WalkArgs::default() };
    let as_args = ConfigArgs { walk: args };
    let as_layer = Config {
        walk: Walk { ignore_hidden: Some(false), ignore_parent: Some(true), ..Walk::unset() },
    };
    let low = Config { walk: Walk { ignore_hidden: Some(true), ..Walk::unset() } };
    let from_args: Vec<&dyn ConfigSource> = vec![&as_args, &low];
    let from_layer: Vec<&dyn ConfigSource> = vec![&as_layer, &low];
    assert_eq!(merge_config(&from_args), merge_config(&from_layer));
}

#[test]
fn defaults_at_the_end_change_nothing_once_settled() {
    let file = Config { walk: Walk { ignore_vcs: Some(false), ..Walk::unset() } };
    let defaults = Config::defaults();
    let without: Vec<&dyn ConfigSource> = vec![&file];
    let with: Vec<&dyn ConfigSource> = vec![&file, &defaults];
    assert_eq!(merge_config(&without).walk.settle(), merge_config(&with).walk.settle());
    let file = Engine { binary: Some(true), ..Engine::unset() };
    let defaults = Engine::defaults();
    let without: Vec<&dyn EngineSource> = vec![&file];
    let with: Vec<&dyn EngineSource> = vec![&file, &defaults];
    assert_eq!(merge_engine(&without).settle(), merge_engine(&with).settle());
}

#[test]
fn no_hidden_on_the_command_line_wins_over_file_and_defaults() {
    let args = ConfigArgs { walk: WalkArgs { no_hidden: true, ..WalkArgs::default() } };
    let file = Config { walk: Walk { ignore_hidden: Some(false), ..Walk::unset() } };
    let defaults = Config { walk: Walk { ignore_hidden: Some(true), ..Walk::unset() } };
    let sources: Vec<&dyn ConfigSource> = vec![&args, &file, &defaults];
    assert_eq!(merge_config(&sources).walk.ignore_hidden, Some(true));
    assert!(Settings::resolve(&sources, &no_engine(), None).walk.ignore_hidden);
}

#[test]
fn hidden_on_the_command_line_wins_over_file() {
    let args = ConfigArgs { walk: WalkArgs { hidden: true, ..WalkArgs::default() } };
    let file = Config { walk: Walk { ignore_hidden: Some(true), ..Walk::unset() } };
    let sources: Vec<&dyn ConfigSource> = vec![&args, &file];
    assert!(!Settings::resolve(&sources, &no_engine(), None).walk.ignore_hidden);
}

#[test]
fn binary_from_file_wins_when_command_line_is_silent() {
    let args = FileArgs::default();
    let file = Engine { binary: Some(true), ..Engine::unset() };
    let defaults = Engine { binary: Some(false), ..Engine::unset() };
    let sources: Vec<&dyn EngineSource> = vec![&args, &file, &defaults];
    assert_eq!(merge_engine(&sources).binary, Some(true));
    assert!(Settings::resolve(&no_config(), &sources, None).engine.binary);
}

#[test]
fn no_format_anywhere_gives_long() {
    let args = ConfigArgs::default();
    let overrides = FileArgs::default();
    let config: Vec<&dyn ConfigSource> = vec![&args];
    let engine: Vec<&dyn EngineSource> = vec![&overrides];
    let settings = Settings::resolve(&config, &engine, None);
    assert_eq!(settings.format, Format::Long);
    assert_eq!(settings.format.reporter(), Reporter::PrintLong);
}

#[test]
fn format_that_was_asked_for_is_in_the_settings() {
    let settings = Settings::resolve(&no_config(), &no_engine(), Some(Format::Json));
    assert_eq!(settings.format, Format::Json);
    assert_eq!(settings.format.reporter(), Reporter::PrintJson);
}
