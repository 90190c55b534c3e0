//! The plugin groups an application starts from.
//!
//! A group is configured by a [`Features`] value, one flag per optional
//! subsystem, and composes its plugins in a fixed order.

use vstd::prelude::*;

verus! {

/// The optional subsystems of the engine, and two properties of the build
/// that decide whether rendering is pipelined.
#[derive(Debug, Clone, Copy, PartialEq, Eq, Structural)]
pub struct Features {
    pub bevy_asset: bool,
    pub bevy_scene: bool,
    pub bevy_winit: bool,
    pub bevy_render: bool,
    pub bevy_core_pipeline: bool,
    pub bevy_sprite: bool,
    pub bevy_text: bool,
    pub bevy_ui: bool,
    pub bevy_pbr: bool,
    pub bevy_gltf: bool,
    pub bevy_audio: bool,
    pub bevy_gilrs: bool,
    pub bevy_animation: bool,
    pub bevy_gizmos: bool,
    /// The task pools run on more than one thread.
    pub multi_threaded: bool,
    /// The build targets `wasm32`.
    pub wasm32: bool,
}

/// A plugin that a group can add to a [`PluginSet`].
#[derive(Debug, Clone, Copy, PartialEq, Eq, Structural)]
pub enum Plugin {
    Log,
    TaskPool,
    TypeRegistration,
    FrameCount,
    Time,
    Transform,
    Hierarchy,
    Diagnostics,
    Input,
    Window,
    Accessibility,
    IgnoreAmbiguities(IgnoreAmbiguitiesPlugin),
    Asset,
    Scene,
    Winit,
    Render,
    Image,
    PipelinedRendering,
    CorePipeline,
    Sprite,
    Text,
    Ui,
    Pbr,
    Gltf,
    Audio,
    Gilrs,
    Animation,
    Gizmo,
    ScheduleRunner,
}

/// An ordered collection of plugins. Its view is the sequence of plugins in
/// the order in which they were added.
#[derive(Debug, Clone)]
pub struct PluginSet {
    plugins: Vec<Plugin>,
}

impl View for PluginSet {
    type V = Seq<Plugin>;

    closed spec fn view(&self) -> Seq<Plugin> {
        self.plugins@
    }
}

impl PluginSet {
    /// The empty set.
    pub fn new() -> (set: PluginSet)
        ensures
            set@ == Seq::<Plugin>::empty(),
    {
        PluginSet { plugins: Vec::new() }
    }

    /// Adds one plugin behind those already in the set.
    pub fn add_plugin(self, plugin: Plugin) -> (set: PluginSet)
        ensures
            set@ == self@.push(plugin),
    {
        let mut plugins = self.plugins;
        plugins.push(plugin);
        PluginSet { plugins }
    }

    /// Adds several plugins, in their order, behind those already in the set.
    pub fn add_plugins(self, group: Vec<Plugin>) -> (set: PluginSet)
        ensures
            set@ == self@ + group@,
    {
        let mut plugins = self.plugins;
        let mut group = group;
        plugins.append(&mut group);
        PluginSet { plugins }
    }

    /// Adds `group` where `enabled` holds, and leaves the set as it is
    /// otherwise.
    pub fn add_plugins_when(self, enabled: bool, group: Vec<Plugin>) -> (set: PluginSet)
        ensures
            set@ == self@ + when(enabled, group@),
    {
        if enabled {
            self.add_plugins(group)
        } else {
            self
        }
    }

    /// Adds `plugin` where `enabled` holds, and leaves the set as it is
    /// otherwise.
    pub fn add_plugin_when(self, enabled: bool, plugin: Plugin) -> (set: PluginSet)
        ensures
            set@ == self@ + when(enabled, seq![plugin]),
    {
        if enabled {
            self.add_plugin(plugin)
        } else {
            self
        }
    }

    /// The number of plugins in the set.
    pub fn len(&self) -> (len: usize)
        ensures
            len == self@.len(),
    {
        self.plugins.len()
    }

    /// The plugin at position `index`, if there is one.
    pub fn get(&self, index: usize) -> (plugin: Option<Plugin>)
        ensures
            plugin == (if index < self@.len() {
                Some(self@[index as int])
            } else {
                None
            }),
    {
        if index < self.plugins.len() {
            Some(self.plugins[index])
        } else {
            None
        }
    }
}

/// `plugins` where `enabled` holds, nothing otherwise.
pub open spec fn when(enabled: bool, plugins: Seq<Plugin>) -> Seq<Plugin> {
    if enabled {
        plugins
    } else {
        Seq::empty()
    }
}

/// The plugins of a windowed application with presentation components.
///
/// The group obeys its [`Features`]: an optional subsystem contributes its
/// plugins only where its flag is set. For headless programs see
/// [`MinimalPlugins`].
#[derive(Debug, Clone, Copy, PartialEq, Eq, Structural)]
pub struct DefaultPlugins {
    pub features: Features,
}

impl DefaultPlugins {
    /// The plugins that are always part of the group, in order.
    pub open spec fn core_plugins(features: Features) -> Seq<Plugin> {
        seq![
            Plugin::Log,
            Plugin::TaskPool,
            Plugin::TypeRegistration,
            Plugin::FrameCount,
            Plugin::Time,
            Plugin::Transform,
            Plugin::Hierarchy,
            Plugin::Diagnostics,
            Plugin::Input,
            Plugin::Window,
            Plugin::Accessibility,
            Plugin::IgnoreAmbiguities(IgnoreAmbiguitiesPlugin { features }),
        ]
    }

    /// The plugins of the renderer: pipelined rendering joins them on a
    /// multi-threaded build for a target other than `wasm32`.
    pub open spec fn render_plugins(features: Features) -> Seq<Plugin> {
        seq![Plugin::Render, Plugin::Image] + when(
            !features.wasm32 && features.multi_threaded,
            seq![Plugin::PipelinedRendering],
        )
    }

    /// The whole group for the given features, in the order in which `build`
    /// adds it. The glTF loader stands behind the renderer, which tells it
    /// the supported compressed texture formats.
    pub open spec fn plugins(features: Features) -> Seq<Plugin> {
        Self::core_plugins(features)
            + when(features.bevy_asset, seq![Plugin::Asset])
            + when(features.bevy_scene, seq![Plugin::Scene])
            + when(features.bevy_winit, seq![Plugin::Winit])
            + when(features.bevy_render, Self::render_plugins(features))
            + when(features.bevy_core_pipeline, seq![Plugin::CorePipeline])
            + when(features.bevy_sprite, seq![Plugin::Sprite])
            + when(features.bevy_text, seq![Plugin::Text])
            + when(features.bevy_ui, seq![Plugin::Ui])
            + when(features.bevy_pbr, seq![Plugin::Pbr])
            + when(features.bevy_gltf, seq![Plugin::Gltf])
            + when(features.bevy_audio, seq![Plugin::Audio])
            + when(features.bevy_gilrs, seq![Plugin::Gilrs])
            + when(features.bevy_animation, seq![Plugin::Animation])
            + when(features.bevy_gizmos, seq![Plugin::Gizmo])
    }

    /// Adds the group to `set`, behind the plugins already in it.
    pub fn build(self, set: PluginSet) -> (built: PluginSet)
        ensures
            built@ == set@ + Self::plugins(self.features),
    {
        let features = self.features;
        let ghost before = set@;
        let mut set = set.add_plugins(Self::base(features));
        let ghost mut added = Self::core_plugins(features);

        set = set.add_plugin_when(features.bevy_asset, Plugin::Asset);
        proof {
            lemma_concat_assoc(before, added, when(features.bevy_asset, seq![Plugin::Asset]));
            added = added + when(features.bevy_asset, seq![Plugin::Asset]);
        }
        set = set.add_plugin_when(features.bevy_scene, Plugin::Scene);
        proof {
            lemma_concat_assoc(before, added, when(features.bevy_scene, seq![Plugin::Scene]));
            added = added + when(features.bevy_scene, seq![Plugin::Scene]);
        }
        set = set.add_plugin_when(features.bevy_winit, Plugin::Winit);
        proof {
            lemma_concat_assoc(before, added, when(features.bevy_winit, seq![Plugin::Winit]));
            added = added + when(features.bevy_winit, seq![Plugin::Winit]);
        }
        set = set.add_plugins_when(features.bevy_render, Self::render(features));
        proof {
            lemma_concat_assoc(
                before,
                added,
                when(features.bevy_render, Self::render_plugins(features)),
            );
            added = added + when(features.bevy_render, Self::render_plugins(features));
        }
        set = set.add_plugin_when(features.bevy_core_pipeline, Plugin::CorePipeline);
        proof {
            lemma_concat_assoc(
                before,
                added,
                when(features.bevy_core_pipeline, seq![Plugin::CorePipeline]),
            );
            added = added + when(features.bevy_core_pipeline, seq![Plugin::CorePipeline]);
        }
        set = set.add_plugin_when(features.bevy_sprite, Plugin::Sprite);
        proof {
            lemma_concat_assoc(before, added, when(features.bevy_sprite, seq![Plugin::Sprite]));
            added = added + when(features.bevy_sprite, seq![Plugin::Sprite]);
        }
        set = set.add_plugin_when(features.bevy_text, Plugin::Text);
        proof {
            lemma_concat_assoc(before, added, when(features.bevy_text, seq![Plugin::Text]));
            added = added + when(features.bevy_text, seq![Plugin::Text]);
        }
        set = set.add_plugin_when(features.bevy_ui, Plugin::Ui);
        proof {
            lemma_concat_assoc(before, added, when(features.bevy_ui, seq![Plugin::Ui]));
            added = added + when(features.bevy_ui, seq![Plugin::Ui]);
        }
        set = set.add_plugin_when(features.bevy_pbr, Plugin::Pbr);
        proof {
            lemma_concat_assoc(before, added, when(features.bevy_pbr, seq![Plugin::Pbr]));
            added = added + when(features.bevy_pbr, seq![Plugin::Pbr]);
        }
        set = set.add_plugin_when(features.bevy_gltf, Plugin::Gltf);
        proof {
            lemma_concat_assoc(before, added, when(features.bevy_gltf, seq![Plugin::Gltf]));
            added = added + when(features.bevy_gltf, seq![Plugin::Gltf]);
        }
        set = set.add_plugin_when(features.bevy_audio, Plugin::Audio);
        proof {
            lemma_concat_assoc(before, added, when(features.bevy_audio, seq![Plugin::Audio]));
            added = added + when(features.bevy_audio, seq![Plugin::Audio]);
        }
        set = set.add_plugin_when(features.bevy_gilrs, Plugin::Gilrs);
        proof {
            lemma_concat_assoc(before, added, when(features.bevy_gilrs, seq![Plugin::Gilrs]));
            added = added + when(features.bevy_gilrs, seq![Plugin::Gilrs]);
        }
        set = set.add_plugin_when(features.bevy_animation, Plugin::Animation);
        proof {
            lemma_concat_assoc(
                before,
                added,
                when(features.bevy_animation, seq![Plugin::Animation]),
            );
            added = added + when(features.bevy_animation, seq![Plugin::Animation]);
        }
        set = set.add_plugin_when(features.bevy_gizmos, Plugin::Gizmo);
        proof {
            lemma_concat_assoc(before, added, when(features.bevy_gizmos, seq![Plugin::Gizmo]));
            added = added + when(features.bevy_gizmos, seq![Plugin::Gizmo]);
        }
        set
    }

    /// The plugins that are always part of the group as a list.
    fn base(features: Features) -> (plugins: Vec<Plugin>)
        ensures
            plugins@ == Self::core_plugins(features),
    {
        let plugins = vec![
            Plugin::Log,
            Plugin::TaskPool,
            Plugin::TypeRegistration,
            Plugin::FrameCount,
            Plugin::Time,
            Plugin::Transform,
            Plugin::Hierarchy,
            Plugin::Diagnostics,
            Plugin::Input,
            Plugin::Window,
            Plugin::Accessibility,
            Plugin::IgnoreAmbiguities(IgnoreAmbiguitiesPlugin { features }),
        ];
        plugins
    }

    /// The renderer's plugins as a list.
    fn render(features: Features) -> (plugins: Vec<Plugin>)
        ensures
            plugins@ == Self::render_plugins(features),
    {
        let mut plugins = vec![Plugin::Render, Plugin::Image];
        if !features.wasm32 && features.multi_threaded {
            plugins.push(Plugin::PipelinedRendering);
        }
        plugins
    }
}

/// Concatenation of plugin sequences is associative.
proof fn lemma_concat_assoc(a: Seq<Plugin>, b: Seq<Plugin>, c: Seq<Plugin>)
    ensures
        (a + b) + c == a + (b + c),
{
}

/// The application on which an ambiguity between two systems is ignored.
#[derive(Debug, Clone, Copy, PartialEq, Eq, Structural)]
pub enum AppLabel {
    /// The main application.
    Main,
    /// The render sub-application.
    Render,
}

/// The schedule in which two systems run.
#[derive(Debug, Clone, Copy, PartialEq, Eq, Structural)]
pub enum Schedule {
    PostUpdate,
    Render,
}

/// The systems whose mutual order the default plugins leave open.
#[derive(Debug, Clone, Copy, PartialEq, Eq, Structural)]
pub enum System {
    AnimationPlayer,
    UiLayout,
    QueueLineGizmos2d,
    QueueSprites,
    QueueMaterial2dMeshes,
    QueueLineGizmos3d,
    QueueMaterialMeshes,
}

/// An instruction to the scheduler of `app`: do not report that `first` and
/// `second` conflict in `schedule`.
#[derive(Debug, Clone, Copy, PartialEq, Eq, Structural)]
pub struct IgnoredAmbiguity {
    pub app: AppLabel,
    pub schedule: Schedule,
    pub first: System,
    pub second: System,
}

/// Silences the ambiguities between systems of different default plugins
/// that are known to be harmless.
#[derive(Debug, Clone, Copy, PartialEq, Eq, Structural)]
pub struct IgnoreAmbiguitiesPlugin {
    pub features: Features,
}

impl IgnoreAmbiguitiesPlugin {
    /// The ambiguity of the main application: the user interface owns the
    /// transforms it lays out, so animation cannot touch them.
    pub open spec fn main_ambiguities(features: Features) -> Seq<IgnoredAmbiguity> {
        if features.bevy_animation && features.bevy_ui {
            seq![
                IgnoredAmbiguity {
                    app: AppLabel::Main,
                    schedule: Schedule::PostUpdate,
                    first: System::AnimationPlayer,
                    second: System::UiLayout,
                },
            ]
        } else {
            Seq::empty()
        }
    }

    /// The ambiguities between the queueing of 2d line gizmos and of sprites.
    pub open spec fn sprite_ambiguities(features: Features) -> Seq<IgnoredAmbiguity> {
        if features.bevy_gizmos && features.bevy_sprite {
            seq![
                IgnoredAmbiguity {
                    app: AppLabel::Render,
                    schedule: Schedule::Render,
                    first: System::QueueLineGizmos2d,
                    second: System::QueueSprites,
                },
                IgnoredAmbiguity {
                    app: AppLabel::Render,
                    schedule: Schedule::Render,
                    first: System::QueueLineGizmos2d,
                    second: System::QueueMaterial2dMeshes,
                },
            ]
        } else {
            Seq::empty()
        }
    }

    /// The ambiguity between the queueing of 3d line gizmos and of meshes.
    pub open spec fn pbr_ambiguities(features: Features) -> Seq<IgnoredAmbiguity> {
        if features.bevy_gizmos && features.bevy_pbr {
            seq![
                IgnoredAmbiguity {
                    app: AppLabel::Render,
                    schedule: Schedule::Render,
                    first: System::QueueLineGizmos3d,
                    second: System::QueueMaterialMeshes,
                },
            ]
        } else {
            Seq::empty()
        }
    }

    /// Everything the plugin ignores. The render sub-application is touched
    /// only where the renderer is enabled and the sub-application exists.
    pub open spec fn ambiguities(features: Features, has_render_app: bool) -> Seq<
        IgnoredAmbiguity,
    > {
        Self::main_ambiguities(features) + (if features.bevy_render && has_render_app {
            Self::sprite_ambiguities(features) + Self::pbr_ambiguities(features)
        } else {
            Seq::empty()
        })
    }

    /// The ambiguities to ignore, in the order in which they are registered.
    /// `has_render_app` says whether the application has a render
    /// sub-application.
    pub fn build(&self, has_render_app: bool) -> (ignored: Vec<IgnoredAmbiguity>)
        ensures
            ignored@ == Self::ambiguities(self.features, has_render_app),
    {
        let features = self.features;
        let mut ignored: Vec<IgnoredAmbiguity> = Vec::new();
        if features.bevy_animation && features.bevy_ui {
            ignored.push(
                IgnoredAmbiguity {
                    app: AppLabel::Main,
                    schedule: Schedule::PostUpdate,
                    first: System::AnimationPlayer,
                    second: System::UiLayout,
                },
            );
        }
        if features.bevy_render && has_render_app {
            if features.bevy_gizmos && features.bevy_sprite {
                ignored.push(
                    IgnoredAmbiguity {
                        app: AppLabel::Render,
                        schedule: Schedule::Render,
                        first: System::QueueLineGizmos2d,
                        second: System::QueueSprites,
                    },
                );
                ignored.push(
                    IgnoredAmbiguity {
                        app: AppLabel::Render,
                        schedule: Schedule::Render,
                        first: System::QueueLineGizmos2d,
                        second: System::QueueMaterial2dMeshes,
                    },
                );
            }
            if features.bevy_gizmos && features.bevy_pbr {
                ignored.push(
                    IgnoredAmbiguity {
                        app: AppLabel::Render,
                        schedule: Schedule::Render,
                        first: System::QueueLineGizmos3d,
                        second: System::QueueMaterialMeshes,
                    },
                );
            }
        }
        ignored
    }
}

/// The plugins of a minimal, headless application. A schedule runner stands
/// in for the event loop that a windowed application would bring.
#[derive(Debug, Clone, Copy, PartialEq, Eq, Structural)]
pub struct MinimalPlugins;

impl MinimalPlugins {
    /// The group, in the order in which `build` adds it.
    pub open spec fn plugins() -> Seq<Plugin> {
        seq![
            Plugin::TaskPool,
            Plugin::TypeRegistration,
            Plugin::FrameCount,
            Plugin::Time,
            Plugin::ScheduleRunner,
        ]
    }

    /// Adds the group to `set`, behind the plugins already in it.
    pub fn build(self, set: PluginSet) -> (built: PluginSet)
        ensures
            built@ == set@ + Self::plugins(),
    {
        set.add_plugins(
            vec![
                Plugin::TaskPool,
                Plugin::TypeRegistration,
                Plugin::FrameCount,
                Plugin::Time,
                Plugin::ScheduleRunner,
            ],
        )
    }
}

} // verus!
