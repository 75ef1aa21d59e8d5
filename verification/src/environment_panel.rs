//! What the environment switcher and the environment manager show.

use vstd::prelude::*;
use crate::appearance::{Caption, CaptionModel};
use crate::labels::{Label, LabelModel};
use crate::request_store::{ApiEnvironment, ApiEnvironmentModel};
use crate::sections::KvSection;
use crate::text::{decimal, decimal_text, is_text, join, lemma_decimal_injective};
use crate::view_state::{ApiTestView, ApiTestViewModel};
use crate::widgets::{
    Button, ButtonAction, ButtonModel, InputField, InputFieldModel, hinted_input, icon_button, labelled,
};

verus! {

/// An environment in a list, by whose row it is selected.
#[derive(Debug)]
pub struct EnvironmentRow {
    pub element_id: String,
    pub id: String,
    pub name: String,
    pub is_active: bool,
}

/// Model of [`EnvironmentRow`].
#[verifier::ext_equal]
pub struct EnvironmentRowModel {
    pub element_id: Seq<char>,
    pub id: Seq<char>,
    pub name: Seq<char>,
    pub is_active: bool,
}

impl DeepView for EnvironmentRow {
    type V = EnvironmentRowModel;

    open spec fn deep_view(&self) -> EnvironmentRowModel {
        EnvironmentRowModel {
            element_id: self.element_id@,
            id: self.id@,
            name: self.name@,
            is_active: self.is_active,
        }
    }
}

/// The rows of a list of environments. The element ids are the prefix with the index.
pub open spec fn environment_rows(
    environments: Seq<ApiEnvironmentModel>,
    active: Option<Seq<char>>,
    prefix: Seq<char>,
) -> Seq<EnvironmentRowModel> {
    Seq::new(
        environments.len(),
        |i: int|
            EnvironmentRowModel {
                element_id: prefix + decimal_text(i as nat),
                id: environments[i].id,
                name: environments[i].name,
                is_active: active == Some(environments[i].id),
            },
    )
}

/// No two rows of a list of environments have the same element id.
pub proof fn law_environment_row_ids_distinct(
    environments: Seq<ApiEnvironmentModel>,
    active: Option<Seq<char>>,
    prefix: Seq<char>,
    i: int,
    j: int,
)
    requires
        0 <= i < environments.len(),
        0 <= j < environments.len(),
        environment_rows(environments, active, prefix)[i].element_id == environment_rows(
            environments,
            active,
            prefix,
        )[j].element_id,
    ensures
        i == j,
{
    let n = prefix.len() as int;
    assert((prefix + decimal_text(i as nat)).skip(n) =~= decimal_text(i as nat));
    assert((prefix + decimal_text(j as nat)).skip(n) =~= decimal_text(j as nat));
    lemma_decimal_injective(i as nat, j as nat);
}

fn list_environments(
    environments: &Vec<ApiEnvironment>,
    active: &Option<String>,
    prefix: &str,
) -> (r: Vec<EnvironmentRow>)
    ensures
        r.deep_view() == environment_rows(environments.deep_view(), active.deep_view(), prefix@),
{
    let ghost all = environments.deep_view();
    let ghost rows = environment_rows(all, active.deep_view(), prefix@);
    let mut r: Vec<EnvironmentRow> = Vec::new();
    let mut i: usize = 0;
    while i < environments.len()
        invariant
            all == environments.deep_view(),
            rows == environment_rows(all, active.deep_view(), prefix@),
            i <= environments.len(),
            r.len() == i,
            forall|k: int| 0 <= k < i ==> (#[trigger] r@[k]).deep_view() == rows[k],
        decreases environments.len() - i,
    {
        let environment = &environments[i];
        assert(all[i as int] == environment.deep_view());
        let index = decimal(i as u128);
        r.push(
            EnvironmentRow {
                element_id: join(prefix, index.as_str()),
                id: environment.id.clone(),
                name: environment.name.clone(),
                is_active: is_text(active, environment.id.as_str()),
            },
        );
        i = i + 1;
    }
    assert(r.deep_view() =~= rows);
    r
}

/// The switcher: the name on its button, its title, the number of environments, a row for
/// each, and the buttons for a new one and for the manager.
#[derive(Debug)]
pub struct EnvironmentSwitcher {
    pub label: Caption,
    pub title: Label,
    pub count: String,
    pub rows: Vec<EnvironmentRow>,
    pub new_environment: Button,
    pub manage: Button,
}

/// Model of [`EnvironmentSwitcher`].
#[verifier::ext_equal]
pub struct EnvironmentSwitcherModel {
    pub label: CaptionModel,
    pub title: LabelModel,
    pub count: Seq<char>,
    pub rows: Seq<EnvironmentRowModel>,
    pub new_environment: ButtonModel,
    pub manage: ButtonModel,
}

impl DeepView for EnvironmentSwitcher {
    type V = EnvironmentSwitcherModel;

    open spec fn deep_view(&self) -> EnvironmentSwitcherModel {
        EnvironmentSwitcherModel {
            label: self.label.deep_view(),
            title: self.title.deep_view(),
            count: self.count@,
            rows: self.rows.deep_view(),
            new_environment: self.new_environment.deep_view(),
            manage: self.manage.deep_view(),
        }
    }
}

/// A card with a table: its element id, its title, the tag beside it where it has one, the
/// hints below it, and the table.
#[derive(Debug)]
pub struct SettingsCard {
    pub element_id: Label,
    pub title: Label,
    pub tag: Option<Label>,
    pub hints: Vec<Label>,
    pub section: KvSection,
}

/// Model of [`SettingsCard`].
#[verifier::ext_equal]
pub struct SettingsCardModel {
    pub element_id: LabelModel,
    pub title: LabelModel,
    pub tag: Option<LabelModel>,
    pub hints: Seq<LabelModel>,
    pub section: KvSection,
}

impl DeepView for SettingsCard {
    type V = SettingsCardModel;

    open spec fn deep_view(&self) -> SettingsCardModel {
        SettingsCardModel {
            element_id: self.element_id.deep_view(),
            title: self.title.deep_view(),
            tag: self.tag.deep_view(),
            hints: self.hints.deep_view(),
            section: self.section,
        }
    }
}

/// The manager. On its left are its titles, the number of environments, a row for each and
/// the button for a new one. On its right are the title of the settings with the button that
/// closes it, the name of the active environment with the buttons to rename and to delete it,
/// its base URL, and the cards with its tables.
#[derive(Debug)]
pub struct EnvironmentManager {
    pub title: Label,
    pub subtitle: Label,
    pub count: String,
    pub rows: Vec<EnvironmentRow>,
    pub new_environment: Button,
    pub settings_title: Label,
    pub close: Button,
    pub active_name: Caption,
    pub active_hint: Label,
    pub rename: Button,
    pub delete: Button,
    pub base_url: InputField,
    pub cards: Vec<SettingsCard>,
}

/// Model of [`EnvironmentManager`].
#[verifier::ext_equal]
pub struct EnvironmentManagerModel {
    pub title: LabelModel,
    pub subtitle: LabelModel,
    pub count: Seq<char>,
    pub rows: Seq<EnvironmentRowModel>,
    pub new_environment: ButtonModel,
    pub settings_title: LabelModel,
    pub close: ButtonModel,
    pub active_name: CaptionModel,
    pub active_hint: LabelModel,
    pub rename: ButtonModel,
    pub delete: ButtonModel,
    pub base_url: InputFieldModel,
    pub cards: Seq<SettingsCardModel>,
}

impl DeepView for EnvironmentManager {
    type V = EnvironmentManagerModel;

    open spec fn deep_view(&self) -> EnvironmentManagerModel {
        EnvironmentManagerModel {
            title: self.title.deep_view(),
            subtitle: self.subtitle.deep_view(),
            count: self.count@,
            rows: self.rows.deep_view(),
            new_environment: self.new_environment.deep_view(),
            settings_title: self.settings_title.deep_view(),
            close: self.close.deep_view(),
            active_name: self.active_name.deep_view(),
            active_hint: self.active_hint.deep_view(),
            rename: self.rename.deep_view(),
            delete: self.delete.deep_view(),
            base_url: self.base_url.deep_view(),
            cards: self.cards.deep_view(),
        }
    }
}

/// The model of a card with one hint.
pub open spec fn card_model(
    element_id: Seq<char>,
    title: Seq<char>,
    hint: Seq<char>,
    section: KvSection,
) -> SettingsCardModel {
    SettingsCardModel {
        element_id: LabelModel::Literal(element_id),
        title: LabelModel::Message(title),
        tag: None,
        hints: seq![LabelModel::Message(hint)],
        section,
    }
}

/// A card with one hint.
pub fn card(
    element_id: &'static str,
    title: &'static str,
    hint: &'static str,
    section: KvSection,
) -> (r: SettingsCard)
    ensures
        r.deep_view() == card_model(element_id@, title@, hint@, section),
{
    let r = SettingsCard {
        element_id: Label::Literal(element_id),
        title: Label::Message(title),
        tag: None,
        hints: vec![Label::Message(hint)],
        section,
    };
    assert(r.hints.deep_view() =~= seq![LabelModel::Message(hint@)]);
    r
}

/// The cards with the tables of an environment, from top to bottom. They stand below its
/// base URL.
pub open spec fn environment_cards() -> Seq<SettingsCardModel> {
    seq![
        card_model(
            "api-environment-variables"@,
            "ApiTest.environment_variables"@,
            "ApiTest.environment_variables_hint"@,
            KvSection::Environment,
        ),
        card_model(
            "api-environment-headers"@,
            "ApiTest.environment_headers"@,
            "ApiTest.environment_headers_hint"@,
            KvSection::EnvironmentHeaders,
        ),
        card_model(
            "api-environment-params"@,
            "ApiTest.environment_params"@,
            "ApiTest.environment_params_hint"@,
            KvSection::EnvironmentParams,
        ),
        card_model(
            "api-environment-cookies"@,
            "ApiTest.environment_cookies"@,
            "ApiTest.environment_cookies_hint"@,
            KvSection::EnvironmentCookies,
        ),
    ]
}

fn list_environment_cards() -> (r: Vec<SettingsCard>)
    ensures
        r.deep_view() == environment_cards(),
{
    let r = vec![
        card(
            "api-environment-variables",
            "ApiTest.environment_variables",
            "ApiTest.environment_variables_hint",
            KvSection::Environment,
        ),
        card(
            "api-environment-headers",
            "ApiTest.environment_headers",
            "ApiTest.environment_headers_hint",
            KvSection::EnvironmentHeaders,
        ),
        card(
            "api-environment-params",
            "ApiTest.environment_params",
            "ApiTest.environment_params_hint",
            KvSection::EnvironmentParams,
        ),
        card(
            "api-environment-cookies",
            "ApiTest.environment_cookies",
            "ApiTest.environment_cookies_hint",
            KvSection::EnvironmentCookies,
        ),
    ];
    assert(r.deep_view() =~= environment_cards());
    r
}

impl ApiTestViewModel {
    /// The name of the active environment, or the text for environments.
    pub open spec fn environment_caption(self) -> CaptionModel {
        match self.active_environment() {
            Some(environment) => CaptionModel::Text(environment.name),
            None => CaptionModel::Message("ApiTest.environment"@),
        }
    }

    /// What the switcher shows.
    pub open spec fn environment_switcher(self) -> EnvironmentSwitcherModel {
        EnvironmentSwitcherModel {
            label: self.environment_caption(),
            title: LabelModel::Message("ApiTest.environments"@),
            count: decimal_text(self.store.environments.len()),
            rows: environment_rows(
                self.store.environments,
                self.store.active_environment_id,
                "api-environment-switch-option-"@,
            ),
            new_environment: labelled(
                "api-new-environment-quick"@,
                "ApiTest.new_environment"@,
                ButtonAction::PromptNewEnvironment,
            ),
            manage: icon_button(
                "api-environment-manager-trigger"@,
                "ApiTest.manage_environments"@,
                ButtonAction::OpenEnvironmentManager,
            ),
        }
    }

    /// The button that deletes the active environment. The last one cannot be deleted.
    pub open spec fn delete_environment_button(self) -> ButtonModel {
        let can_delete = self.store.environments.len() > 1;
        ButtonModel {
            enabled: can_delete,
            ..icon_button(
                "api-delete-environment"@,
                if can_delete {
                    "ApiTest.delete_environment"@
                } else {
                    "ApiTest.cannot_delete_last_environment"@
                },
                ButtonAction::DeleteEnvironment,
            )
        }
    }

    /// The input for the base URL of the active environment, which requests inherit.
    pub open spec fn environment_base_url_field(self) -> InputFieldModel {
        InputFieldModel {
            tag: Some(LabelModel::Message("ApiTest.inherited"@)),
            ..hinted_input(
                Some("api-environment-base-url"@),
                "ApiTest.environment_base_url"@,
                "ApiTest.environment_base_url_hint"@,
                self.inputs.environment_base_url,
            )
        }
    }

    /// What the manager shows.
    pub open spec fn environment_manager(self) -> EnvironmentManagerModel {
        EnvironmentManagerModel {
            title: LabelModel::Message("ApiTest.manage_environments"@),
            subtitle: LabelModel::Message("ApiTest.environments"@),
            count: decimal_text(self.store.environments.len()),
            rows: environment_rows(
                self.store.environments,
                self.store.active_environment_id,
                "api-environment-option-"@,
            ),
            new_environment: labelled(
                "api-new-environment"@,
                "ApiTest.new_environment"@,
                ButtonAction::PromptNewEnvironment,
            ),
            settings_title: LabelModel::Message("ApiTest.environment_settings"@),
            close: ButtonModel {
                element_id: "api-environment-manager-close"@,
                label: None,
                tooltip: None,
                enabled: true,
                click: ButtonAction::CloseDialog,
            },
            active_name: self.environment_caption(),
            active_hint: LabelModel::Message("ApiTest.environment_settings_hint"@),
            rename: labelled(
                "api-rename-environment"@,
                "ApiTest.rename_environment"@,
                ButtonAction::PromptRenameEnvironment,
            ),
            delete: self.delete_environment_button(),
            base_url: self.environment_base_url_field(),
            cards: environment_cards(),
        }
    }
}

impl ApiTestView {
    fn environment_name(&self) -> (r: Caption)
        ensures
            r.deep_view() == self.deep_view().environment_caption(),
    {
        match self.active_environment() {
            Some(environment) => Caption::Text(environment.name.clone()),
            None => Caption::Message("ApiTest.environment"),
        }
    }

    /// What the environment switcher shows.
    pub fn render_environment_manager(&self) -> (r: EnvironmentSwitcher)
        ensures
            r.deep_view() == self.deep_view().environment_switcher(),
    {
        EnvironmentSwitcher {
            label: self.environment_name(),
            title: Label::Message("ApiTest.environments"),
            count: decimal(self.store.environments.len() as u128),
            rows: list_environments(
                &self.store.environments,
                &self.store.active_environment_id,
                "api-environment-switch-option-",
            ),
            new_environment: Button::labelled(
                "api-new-environment-quick",
                "ApiTest.new_environment",
                ButtonAction::PromptNewEnvironment,
            ),
            manage: Button::icon(
                "api-environment-manager-trigger",
                "ApiTest.manage_environments",
                ButtonAction::OpenEnvironmentManager,
            ),
        }
    }

    fn show_delete_environment(&self) -> (r: Button)
        ensures
            r.deep_view() == self.deep_view().delete_environment_button(),
    {
        let can_delete = self.store.environments.len() > 1;
        let tooltip = if can_delete {
            "ApiTest.delete_environment"
        } else {
            "ApiTest.cannot_delete_last_environment"
        };
        let mut r = Button::icon(
            "api-delete-environment",
            tooltip,
            ButtonAction::DeleteEnvironment,
        );
        r.enabled = can_delete;
        r
    }

    fn show_environment_base_url(&self) -> (r: InputField)
        ensures
            r.deep_view() == self.deep_view().environment_base_url_field(),
    {
        let mut r = InputField::hinted(
            Some("api-environment-base-url"),
            "ApiTest.environment_base_url",
            "ApiTest.environment_base_url_hint",
            &self.inputs.environment_base_url,
        );
        r.tag = Some(Label::Message("ApiTest.inherited"));
        r
    }

    /// What the environment manager shows.
    pub fn render_environment_manager_dialog(&self) -> (r: EnvironmentManager)
        ensures
            r.deep_view() == self.deep_view().environment_manager(),
    {
        EnvironmentManager {
            title: Label::Message("ApiTest.manage_environments"),
            subtitle: Label::Message("ApiTest.environments"),
            count: decimal(self.store.environments.len() as u128),
            rows: list_environments(
                &self.store.environments,
                &self.store.active_environment_id,
                "api-environment-option-",
            ),
            new_environment: Button::labelled(
                "api-new-environment",
                "ApiTest.new_environment",
                ButtonAction::PromptNewEnvironment,
            ),
            settings_title: Label::Message("ApiTest.environment_settings"),
            close: Button {
                element_id: "api-environment-manager-close",
                label: None,
                tooltip: None,
                enabled: true,
                click: ButtonAction::CloseDialog,
            },
            active_name: self.environment_name(),
            active_hint: Label::Message("ApiTest.environment_settings_hint"),
            rename: Button::labelled(
                "api-rename-environment",
                "ApiTest.rename_environment",
                ButtonAction::PromptRenameEnvironment,
            ),
            delete: self.show_delete_environment(),
            base_url: self.show_environment_base_url(),
            cards: list_environment_cards(),
        }
    }
}

/// The manager offers to delete an environment exactly where deleting is not refused.
pub proof fn law_delete_offer_is_honest(view: ApiTestViewModel)
    ensures
        !view.environment_manager().delete.enabled ==> view.environment_deleted() == (ApiTestViewModel {
            notice: Some(crate::view_state::NoticeModel::CannotDeleteLastEnvironment),
            ..view
        }),
        view.environment_manager().delete.enabled ==> view.environment_deleted().notice == view.notice,
{
}

} // verus!
