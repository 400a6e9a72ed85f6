use bevy_bundled::attrs::{has_attribute, resolve_mode};
use bevy_bundled::component::assemble_bundle;
use bevy_bundled::decl::{AccessorAlias, AggregateMember, WrapperType, Wrapping};
use bevy_bundled::error::GenerationError;
use bevy_bundled::ident::{
    accessor_ident, derive_component_names, derive_fields, namespace_from_snake, namespace_ident,
    strip_raw_prefix, suffixed_ident, NamedField, RecordNames,
};
use bevy_bundled::model::{
    AttributeForm, FieldDefinition, RecordBody, RecordDefinition, StructAttribute,
};
use bevy_bundled::resource::assemble_resources;
use bevy_bundled::tags::assign_tags;
use bevy_bundled::text::decimal;
use bevy_bundled::{bundle, resource_bundle};

fn flag(name: &str) -> StructAttribute {
    StructAttribute { form: AttributeForm::Path, ident: Some(name.to_string()) }
}

fn field(name: &str, ty: &str) -> FieldDefinition {
    FieldDefinition { name: name.to_string(), ty: ty.to_string() }
}

fn record(name: &str, attrs: Vec<StructAttribute>, fields: Vec<FieldDefinition>) -> RecordDefinition {
    RecordDefinition { name: name.to_string(), attrs, body: RecordBody::Named(fields) }
}

fn player(attrs: Vec<StructAttribute>) -> RecordDefinition {
    record("Player", attrs, vec![field("name", "String"), field("health", "i32")])
}

fn wrapper(family: &str, tag: usize, inner: &str) -> WrapperType {
    WrapperType { family: family.to_string(), tag, inner: inner.to_string() }
}

const PLAYER_MARKED: &str = "#[automatically_derived]
impl Player {
    pub type Name = _player::PlayerFieldComponent<0usize, String>;
    pub type Health = _player::PlayerFieldComponent<1usize, i32>;
    pub type Bundled = _player::PlayerBundle;
    pub type Marker = _player::PlayerMarker;
    pub fn bundled(self) -> Self::Bundled {
        self.into()
    }
}
pub mod _player {
    use super::*;
    #[derive(bevy::ecs::component::Component)]
    pub struct PlayerMarker;
    #[derive(bevy::ecs::bundle::Bundle)]
    pub struct PlayerBundle {
        name: PlayerFieldComponent<0usize, String>,
        health: PlayerFieldComponent<1usize, i32>,
        marker: PlayerMarker,
    }
    #[automatically_derived]
    impl From<super::Player> for PlayerBundle {
        fn from(item: super::Player) -> PlayerBundle {
            PlayerBundle {
                name: PlayerFieldComponent::<0usize, _>(item.name),
                health: PlayerFieldComponent::<1usize, _>(item.health),
                marker: PlayerMarker,
            }
        }
    }
    #[derive(bevy::prelude::Deref, bevy::prelude::DerefMut, bevy::ecs::component::Component)]
    pub struct PlayerFieldComponent<const FIELD: usize, T>(pub(super) T);
}
";

const PLAYER_UNMARKED: &str = "#[automatically_derived]
impl Player {
    pub type Name = _player::PlayerFieldComponent<0usize, String>;
    pub type Health = _player::PlayerFieldComponent<1usize, i32>;
    pub type Bundled = _player::PlayerBundle;
    pub fn bundled(self) -> Self::Bundled {
        self.into()
    }
}
pub mod _player {
    use super::*;
    #[derive(bevy::ecs::bundle::Bundle)]
    pub struct PlayerBundle {
        name: PlayerFieldComponent<0usize, String>,
        health: PlayerFieldComponent<1usize, i32>,
    }
    #[automatically_derived]
    impl From<super::Player> for PlayerBundle {
        fn from(item: super::Player) -> PlayerBundle {
            PlayerBundle {
                name: PlayerFieldComponent::<0usize, _>(item.name),
                health: PlayerFieldComponent::<1usize, _>(item.health),
            }
        }
    }
    #[derive(bevy::prelude::Deref, bevy::prelude::DerefMut, bevy::ecs::component::Component)]
    pub struct PlayerFieldComponent<const FIELD: usize, T>(pub(super) T);
}
";

const SETTINGS: &str = "#[automatically_derived]
impl Settings {
    pub type Volume = _settings::SettingsFieldResource<0usize, f32>;
    pub type Difficulty = _settings::SettingsFieldResource<1usize, i32>;
}
#[automatically_derived]
impl bevy_bundled::ResourceBundle for Settings {
    fn insert_self_app(self, app: &mut bevy::prelude::App) {
        app
            .insert_resource(_settings::SettingsFieldResource::<0usize, _>(self.volume))
            .insert_resource(_settings::SettingsFieldResource::<1usize, _>(self.difficulty))
        ;
    }
    fn insert_self_commands(self, commands: &mut bevy::prelude::Commands) {
        commands.insert_resource(_settings::SettingsFieldResource::<0usize, _>(self.volume));
        commands.insert_resource(_settings::SettingsFieldResource::<1usize, _>(self.difficulty));
    }
}
pub mod _settings {
    use super::*;
    #[derive(bevy::prelude::Deref, bevy::prelude::DerefMut, bevy::ecs::prelude::Resource)]
    pub struct SettingsFieldResource<const FIELD: usize, T>(pub(super) T);
}
";

#[test]
fn player_without_flags_gets_wrappers_marker_and_aggregate() {
    let d = bundle(&player(vec![])).unwrap();
    assert_eq!(d.record, "Player");
    assert_eq!(d.namespace, "_player");
    assert_eq!(d.family, "PlayerFieldComponent");
    assert_eq!(d.aggregate, "PlayerBundle");
    assert_eq!(d.marker, Some("PlayerMarker".to_string()));
    assert_eq!(
        d.aliases,
        vec![
            AccessorAlias {
                alias: "Name".to_string(),
                wrapper: wrapper("PlayerFieldComponent", 0, "String"),
            },
            AccessorAlias {
                alias: "Health".to_string(),
                wrapper: wrapper("PlayerFieldComponent", 1, "i32"),
            },
        ]
    );
    assert_eq!(
        d.members,
        vec![
            AggregateMember {
                field: "name".to_string(),
                wrapper: wrapper("PlayerFieldComponent", 0, "String"),
            },
            AggregateMember {
                field: "health".to_string(),
                wrapper: wrapper("PlayerFieldComponent", 1, "i32"),
            },
        ]
    );
    assert_eq!(d.members.len() + d.marker.iter().count(), 3);
    assert_eq!(
        d.conversion,
        vec![
            Wrapping { field: "name".to_string(), tag: 0 },
            Wrapping { field: "health".to_string(), tag: 1 },
        ]
    );
    assert_eq!(d.render(), PLAYER_MARKED);
}

#[test]
fn explicitly_marked_player_is_the_default() {
    let plain = bundle(&player(vec![])).unwrap();
    let marked = bundle(&player(vec![flag("marked")])).unwrap();
    assert_eq!(plain, marked);
    assert_eq!(marked.render(), PLAYER_MARKED);
}

#[test]
fn unmarked_player_has_no_marker() {
    let d = bundle(&player(vec![flag("unmarked")])).unwrap();
    assert_eq!(d.marker, None);
    assert_eq!(d.members.len(), 2);
    assert_eq!(d.members.len() + d.marker.iter().count(), 2);
    assert_eq!(d.aliases.len(), 2);
    let text = d.render();
    assert_eq!(text, PLAYER_UNMARKED);
    assert!(!text.contains("Marker"));
    assert!(!text.contains("marker"));
}

#[test]
fn marked_and_unmarked_aborts() {
    let both = player(vec![flag("marked"), flag("unmarked")]);
    assert_eq!(bundle(&both), Err(GenerationError::ConflictingFlags));
    assert_eq!(resource_bundle(&both), Err(GenerationError::ConflictingFlags));
    let reversed = player(vec![flag("unmarked"), flag("marked")]);
    assert_eq!(bundle(&reversed), Err(GenerationError::ConflictingFlags));
}

#[test]
fn settings_resources_are_inserted_under_their_own_wrappers() {
    let settings = record(
        "Settings",
        vec![],
        vec![field("volume", "f32"), field("difficulty", "i32")],
    );
    let d = resource_bundle(&settings).unwrap();
    assert_eq!(d.record, "Settings");
    assert_eq!(d.namespace, "_settings");
    assert_eq!(d.family, "SettingsFieldResource");
    assert_eq!(
        d.aliases,
        vec![
            AccessorAlias {
                alias: "Volume".to_string(),
                wrapper: wrapper("SettingsFieldResource", 0, "f32"),
            },
            AccessorAlias {
                alias: "Difficulty".to_string(),
                wrapper: wrapper("SettingsFieldResource", 1, "i32"),
            },
        ]
    );
    assert_eq!(
        d.insertions,
        vec![
            Wrapping { field: "volume".to_string(), tag: 0 },
            Wrapping { field: "difficulty".to_string(), tag: 1 },
        ]
    );
    assert_ne!(d.aliases[0].wrapper, d.aliases[1].wrapper);
    assert_eq!(d.render(), SETTINGS);
}

#[test]
fn resources_never_get_a_marker() {
    let settings = record("Settings", vec![flag("marked")], vec![field("volume", "f32")]);
    let text = resource_bundle(&settings).unwrap().render();
    assert!(!text.contains("Marker"));
    let unmarked = record("Settings", vec![flag("unmarked")], vec![field("volume", "f32")]);
    assert_eq!(resource_bundle(&unmarked).unwrap().render(), text);
}

#[test]
fn every_field_is_read_back_through_its_alias() {
    let source = record(
        "EntityData",
        vec![],
        vec![field("pos", "Vec3"), field("vel", "Vec3"), field("health", "f32")],
    );
    let fields = match &source.body {
        RecordBody::Named(fields) => fields.clone(),
        _ => unreachable!(),
    };
    let d = bundle(&source).unwrap();
    assert_eq!(d.aliases.len(), fields.len());
    assert_eq!(d.members.len(), fields.len());
    assert_eq!(d.conversion.len(), fields.len());
    for i in 0..fields.len() {
        // the conversion moves field i into the member of the same name ...
        assert_eq!(d.conversion[i].field, fields[i].name);
        assert_eq!(d.members[i].field, fields[i].name);
        // ... inside the wrapper that the member holds ...
        assert_eq!(d.conversion[i].tag, d.members[i].wrapper.tag);
        assert_eq!(d.members[i].wrapper.family, d.family);
        assert_eq!(d.members[i].wrapper.inner, fields[i].ty);
        // ... and the alias of field i names exactly that wrapper, and no other member's.
        assert_eq!(d.aliases[i].wrapper, d.members[i].wrapper);
        let holders: Vec<usize> = (0..fields.len())
            .filter(|k| d.members[*k].wrapper == d.aliases[i].wrapper)
            .collect();
        assert_eq!(holders, vec![i]);
    }
    assert_eq!(d.aliases[0].alias, "Pos");
    assert_eq!(d.aliases[1].alias, "Vel");
    assert_eq!(d.aliases[2].alias, "Health");
}

#[test]
fn wrapper_count_follows_fields_and_mode() {
    for n in 1..5usize {
        let fields: Vec<FieldDefinition> =
            (0..n).map(|i| field(&format!("f{}", i), "u8")).collect();
        let marked = bundle(&record("R", vec![], fields.clone())).unwrap();
        assert_eq!(marked.aliases.len(), n);
        assert_eq!(marked.members.len(), n);
        assert_eq!(marked.conversion.len(), n);
        assert!(marked.marker.is_some());
        let unmarked = bundle(&record("R", vec![flag("unmarked")], fields.clone())).unwrap();
        assert_eq!(unmarked.aliases.len(), n);
        assert!(unmarked.marker.is_none());
        let resources = resource_bundle(&record("R", vec![], fields)).unwrap();
        assert_eq!(resources.aliases.len(), n);
        assert_eq!(resources.insertions.len(), n);
    }
}

#[test]
fn fields_of_one_type_get_different_wrappers() {
    let d = bundle(&record(
        "EntityData",
        vec![],
        vec![field("pos", "Vec3"), field("vel", "Vec3")],
    ))
    .unwrap();
    assert_eq!(d.members[0].wrapper.inner, d.members[1].wrapper.inner);
    assert_eq!(d.members[0].wrapper.family, d.members[1].wrapper.family);
    assert_ne!(d.members[0].wrapper.tag, d.members[1].wrapper.tag);
    assert_ne!(d.members[0].wrapper, d.members[1].wrapper);
    let text = d.render();
    assert!(text.contains("pos: EntityDataFieldComponent<0usize, Vec3>,"));
    assert!(text.contains("vel: EntityDataFieldComponent<1usize, Vec3>,"));
}

#[test]
fn tags_count_the_fields_from_zero() {
    assert_eq!(assign_tags(0), Vec::<usize>::new());
    assert_eq!(assign_tags(1), vec![0]);
    assert_eq!(assign_tags(4), vec![0, 1, 2, 3]);
    let many: Vec<FieldDefinition> = (0..12).map(|i| field(&format!("f{}", i), "u8")).collect();
    let d = bundle(&record("Wide", vec![], many)).unwrap();
    for i in 0..12 {
        assert_eq!(d.aliases[i].wrapper.tag, i);
        assert_eq!(d.conversion[i].tag, i);
    }
    assert!(d.render().contains("    pub type F11 = _wide::WideFieldComponent<11usize, u8>;\n"));
}

#[test]
fn neither_flag_enables_tagging() {
    assert_eq!(resolve_mode(&vec![]), Ok(true));
    assert_eq!(resolve_mode(&vec![flag("marked")]), Ok(true));
    assert_eq!(resolve_mode(&vec![flag("unmarked")]), Ok(false));
    assert_eq!(
        resolve_mode(&vec![flag("marked"), flag("unmarked")]),
        Err(GenerationError::ConflictingFlags)
    );
    assert_eq!(
        resolve_mode(&vec![flag("unmarked"), flag("other"), flag("marked")]),
        Err(GenerationError::ConflictingFlags)
    );
}

#[test]
fn unrecognized_attributes_are_ignored() {
    let attrs = vec![
        flag("derive"),
        flag("Marked"),
        StructAttribute { form: AttributeForm::List, ident: Some("unmarked".to_string()) },
        StructAttribute { form: AttributeForm::NameValue, ident: Some("unmarked".to_string()) },
        StructAttribute { form: AttributeForm::Path, ident: None },
    ];
    assert!(!has_attribute(&attrs, "unmarked"));
    assert!(!has_attribute(&attrs, "marked"));
    assert!(has_attribute(&attrs, "derive"));
    assert_eq!(resolve_mode(&attrs), Ok(true));
    let d = bundle(&player(attrs)).unwrap();
    assert_eq!(d, bundle(&player(vec![])).unwrap());
}

#[test]
fn generation_is_repeatable() {
    let source = player(vec![flag("unmarked")]);
    let first = bundle(&source).unwrap();
    let second = bundle(&source).unwrap();
    assert_eq!(first, second);
    assert_eq!(first.render(), second.render());
    let first = resource_bundle(&source).unwrap();
    let second = resource_bundle(&source).unwrap();
    assert_eq!(first, second);
    assert_eq!(first.render(), second.render());
    let both = player(vec![flag("unmarked"), flag("marked")]);
    assert_eq!(bundle(&both), bundle(&both));
}

#[test]
fn records_without_named_fields_are_refused() {
    let tuple = RecordDefinition {
        name: "Pair".to_string(),
        attrs: vec![],
        body: RecordBody::Positional,
    };
    assert_eq!(bundle(&tuple), Err(GenerationError::UnsupportedShape));
    assert_eq!(resource_bundle(&tuple), Err(GenerationError::UnsupportedShape));
    let unit = RecordDefinition { name: "Nothing".to_string(), attrs: vec![], body: RecordBody::Unit };
    assert_eq!(bundle(&unit), Err(GenerationError::UnsupportedShape));
    assert_eq!(resource_bundle(&unit), Err(GenerationError::UnsupportedShape));
}

#[test]
fn conflicting_flags_are_reported_before_the_shape() {
    let tuple = RecordDefinition {
        name: "Pair".to_string(),
        attrs: vec![flag("marked"), flag("unmarked")],
        body: RecordBody::Positional,
    };
    assert_eq!(bundle(&tuple), Err(GenerationError::ConflictingFlags));
    assert_eq!(resource_bundle(&tuple), Err(GenerationError::ConflictingFlags));
}

#[test]
fn a_record_with_nothing_between_its_braces_is_refused() {
    assert_eq!(bundle(&record("Enemy", vec![], vec![])), Err(GenerationError::UnsupportedShape));
    assert_eq!(
        resource_bundle(&record("Enemy", vec![], vec![])),
        Err(GenerationError::UnsupportedShape)
    );
    assert_eq!(
        bundle(&record("Enemy", vec![flag("unmarked")], vec![])),
        Err(GenerationError::UnsupportedShape)
    );
    assert_eq!(
        bundle(&record("Enemy", vec![flag("unmarked"), flag("marked")], vec![])),
        Err(GenerationError::ConflictingFlags)
    );
}

#[test]
fn assembly_of_no_fields_declares_only_the_marker() {
    let names = derive_component_names("Enemy");
    let d = assemble_bundle("Enemy", &names, &vec![], true);
    assert!(d.aliases.is_empty());
    assert!(d.members.is_empty());
    assert!(d.conversion.is_empty());
    assert_eq!(d.marker, Some("EnemyMarker".to_string()));
    assert_eq!(
        d.render(),
        "#[automatically_derived]
impl Enemy {
    pub type Bundled = _enemy::EnemyBundle;
    pub type Marker = _enemy::EnemyMarker;
    pub fn bundled(self) -> Self::Bundled {
        self.into()
    }
}
pub mod _enemy {
    use super::*;
    #[derive(bevy::ecs::component::Component)]
    pub struct EnemyMarker;
    #[derive(bevy::ecs::bundle::Bundle)]
    pub struct EnemyBundle {
        marker: EnemyMarker,
    }
    #[automatically_derived]
    impl From<super::Enemy> for EnemyBundle {
        fn from(item: super::Enemy) -> EnemyBundle {
            EnemyBundle {
                marker: EnemyMarker,
            }
        }
    }
    #[derive(bevy::prelude::Deref, bevy::prelude::DerefMut, bevy::ecs::component::Component)]
    pub struct EnemyFieldComponent<const FIELD: usize, T>(pub(super) T);
}
"
    );
}

#[test]
fn error_messages() {
    assert_eq!(
        GenerationError::ConflictingFlags.message(),
        "Cannot mark single struct as marked and unmarked"
    );
    assert_eq!(
        GenerationError::UnsupportedShape.message(),
        "Only structs with named fields are supported"
    );
}

#[test]
fn namespace_is_underscore_and_snake_case() {
    assert_eq!(namespace_ident("Player"), "_player");
    assert_eq!(namespace_ident("EntityData"), "_entity_data");
    assert_eq!(namespace_ident("SceneStyle"), "_scene_style");
    assert_eq!(namespace_ident("XMLHttpRequest"), "_xml_http_request");
    assert_eq!(namespace_ident("already_snake"), "_already_snake");
    assert_eq!(namespace_from_snake("entity_data"), "_entity_data");
    assert_eq!(namespace_from_snake(""), "_");
}

#[test]
fn accessor_is_pascal_case() {
    assert_eq!(accessor_ident("health"), "Health");
    assert_eq!(accessor_ident("cube_speed"), "CubeSpeed");
    assert_eq!(accessor_ident("light_speed"), "LightSpeed");
    assert_eq!(accessor_ident("x"), "X");
    assert_eq!(accessor_ident("alreadyCamel"), "AlreadyCamel");
    assert_eq!(accessor_ident("__"), "");
}

#[test]
fn record_names_carry_fixed_suffixes() {
    assert_eq!(
        derive_component_names("Player"),
        RecordNames {
            namespace: "_player".to_string(),
            family: "PlayerFieldComponent".to_string(),
            aggregate: "PlayerBundle".to_string(),
            marker: "PlayerMarker".to_string(),
        }
    );
    assert_eq!(suffixed_ident("Settings", "FieldResource"), "SettingsFieldResource");
    assert_eq!(suffixed_ident("r#Type", "Bundle"), "TypeBundle");
    assert_eq!(suffixed_ident("", "Bundle"), "Bundle");
}

#[test]
fn raw_prefix_is_stripped_once() {
    assert_eq!(strip_raw_prefix("r#type"), "type");
    assert_eq!(strip_raw_prefix("type"), "type");
    assert_eq!(strip_raw_prefix("r#"), "");
    assert_eq!(strip_raw_prefix("r"), "r");
    assert_eq!(strip_raw_prefix(""), "");
    assert_eq!(strip_raw_prefix("r#r#x"), "r#x");
    assert_eq!(strip_raw_prefix("ar#x"), "ar#x");
    assert_eq!(strip_raw_prefix("r#\u{e9}t\u{e9}"), "\u{e9}t\u{e9}");
}

#[test]
fn raw_identifiers_keep_their_marking_where_they_are_used_as_written() {
    let source = record("r#Type", vec![], vec![field("r#fn", "u8")]);
    let d = bundle(&source).unwrap();
    assert_eq!(d.record, "r#Type");
    assert_eq!(d.family, "TypeFieldComponent");
    assert_eq!(d.aggregate, "TypeBundle");
    assert_eq!(d.marker, Some("TypeMarker".to_string()));
    assert_eq!(d.namespace, "_r_type");
    assert_eq!(d.members[0].field, "r#fn");
    assert_eq!(d.conversion[0].field, "r#fn");
    assert_eq!(d.aliases[0].alias, "RFn");
}

#[test]
fn decimal_numerals() {
    assert_eq!(decimal(0), "0");
    assert_eq!(decimal(7), "7");
    assert_eq!(decimal(9), "9");
    assert_eq!(decimal(10), "10");
    assert_eq!(decimal(42), "42");
    assert_eq!(decimal(100), "100");
    assert_eq!(decimal(12345), "12345");
    assert_eq!(decimal(9_876_543_210), "9876543210");
    assert_eq!(decimal(usize::MAX), usize::MAX.to_string());
}

#[test]
fn derived_fields_keep_order_names_and_types() {
    let named = derive_fields(&vec![field("cube_speed", "f32"), field("light_speed", "f32")]);
    assert_eq!(
        named,
        vec![
            NamedField {
                name: "cube_speed".to_string(),
                ty: "f32".to_string(),
                accessor: "CubeSpeed".to_string(),
            },
            NamedField {
                name: "light_speed".to_string(),
                ty: "f32".to_string(),
                accessor: "LightSpeed".to_string(),
            },
        ]
    );
    assert_eq!(derive_fields(&vec![]), Vec::<NamedField>::new());
}

#[test]
fn assembly_uses_the_identifiers_it_is_given() {
    let names = RecordNames {
        namespace: "ns".to_string(),
        family: "Fam".to_string(),
        aggregate: "Agg".to_string(),
        marker: "Mark".to_string(),
    };
    let fields = vec![
        NamedField { name: "a".to_string(), ty: "u8".to_string(), accessor: "First".to_string() },
        NamedField { name: "b".to_string(), ty: "u8".to_string(), accessor: "Second".to_string() },
    ];
    let d = assemble_bundle("Rec", &names, &fields, true);
    assert_eq!(
        d.render(),
        "#[automatically_derived]
impl Rec {
    pub type First = ns::Fam<0usize, u8>;
    pub type Second = ns::Fam<1usize, u8>;
    pub type Bundled = ns::Agg;
    pub type Marker = ns::Mark;
    pub fn bundled(self) -> Self::Bundled {
        self.into()
    }
}
pub mod ns {
    use super::*;
    #[derive(bevy::ecs::component::Component)]
    pub struct Mark;
    #[derive(bevy::ecs::bundle::Bundle)]
    pub struct Agg {
        a: Fam<0usize, u8>,
        b: Fam<1usize, u8>,
        marker: Mark,
    }
    #[automatically_derived]
    impl From<super::Rec> for Agg {
        fn from(item: super::Rec) -> Agg {
            Agg {
                a: Fam::<0usize, _>(item.a),
                b: Fam::<1usize, _>(item.b),
                marker: Mark,
            }
        }
    }
    #[derive(bevy::prelude::Deref, bevy::prelude::DerefMut, bevy::ecs::component::Component)]
    pub struct Fam<const FIELD: usize, T>(pub(super) T);
}
"
    );
    let unmarked = assemble_bundle("Rec", &names, &fields, false);
    assert_eq!(unmarked.marker, None);
    assert_eq!(unmarked.aliases, d.aliases);
    let r = assemble_resources("Rec", "ns", "Res", &fields);
    assert_eq!(
        r.render(),
        "#[automatically_derived]
impl Rec {
    pub type First = ns::Res<0usize, u8>;
    pub type Second = ns::Res<1usize, u8>;
}
#[automatically_derived]
impl bevy_bundled::ResourceBundle for Rec {
    fn insert_self_app(self, app: &mut bevy::prelude::App) {
        app
            .insert_resource(ns::Res::<0usize, _>(self.a))
            .insert_resource(ns::Res::<1usize, _>(self.b))
        ;
    }
    fn insert_self_commands(self, commands: &mut bevy::prelude::Commands) {
        commands.insert_resource(ns::Res::<0usize, _>(self.a));
        commands.insert_resource(ns::Res::<1usize, _>(self.b));
    }
}
pub mod ns {
    use super::*;
    #[derive(bevy::prelude::Deref, bevy::prelude::DerefMut, bevy::ecs::prelude::Resource)]
    pub struct Res<const FIELD: usize, T>(pub(super) T);
}
"
    );
}

#[test]
fn resource_assembly_of_no_fields_inserts_nothing() {
    let d = assemble_resources("Empty", "_empty", "EmptyFieldResource", &vec![]);
    assert!(d.aliases.is_empty());
    assert!(d.insertions.is_empty());
    assert_eq!(
        d.render(),
        "#[automatically_derived]
impl Empty {
}
#[automatically_derived]
impl bevy_bundled::ResourceBundle for Empty {
    fn insert_self_app(self, app: &mut bevy::prelude::App) {
        app
        ;
    }
    fn insert_self_commands(self, commands: &mut bevy::prelude::Commands) {
    }
}
pub mod _empty {
    use super::*;
    #[derive(bevy::prelude::Deref, bevy::prelude::DerefMut, bevy::ecs::prelude::Resource)]
    pub struct EmptyFieldResource<const FIELD: usize, T>(pub(super) T);
}
"
    );
}
