//! Buttons and labelled inputs, as the panels show them.

use vstd::prelude::*;
use crate::http::Protocol;
use crate::labels::{Label, LabelModel};
use crate::tabs::SidebarMode;

verus! {

/// What a click on a button does.
#[derive(Clone, Copy, PartialEq, Eq, Structural, Debug)]
pub enum ButtonAction {
    /// Asks for the name of a new environment.
    PromptNewEnvironment,
    /// Asks for another name of the active environment.
    PromptRenameEnvironment,
    /// Deletes the active environment.
    DeleteEnvironment,
    OpenEnvironmentManager,
    CloseDialog,
    NewFolder,
    /// Asks for a file to import.
    ImportCollection,
    ClearHistory,
    ShowSidebar(SidebarMode),
    /// Shows the body of the response formatted, or as it came.
    ShowPretty(bool),
    /// Sends the message for the connection of the protocol.
    SendMessage(Protocol),
}

/// A button: its element id, its text and its tooltip where it has one, whether it can be
/// clicked, and what a click does.
#[derive(Clone, Copy, Debug)]
pub struct Button {
    pub element_id: &'static str,
    pub label: Option<Label>,
    pub tooltip: Option<Label>,
    pub enabled: bool,
    pub click: ButtonAction,
}

/// Model of [`Button`].
#[verifier::ext_equal]
pub struct ButtonModel {
    pub element_id: Seq<char>,
    pub label: Option<LabelModel>,
    pub tooltip: Option<LabelModel>,
    pub enabled: bool,
    pub click: ButtonAction,
}

impl DeepView for Button {
    type V = ButtonModel;

    open spec fn deep_view(&self) -> ButtonModel {
        ButtonModel {
            element_id: self.element_id@,
            label: self.label.deep_view(),
            tooltip: self.tooltip.deep_view(),
            enabled: self.enabled,
            click: self.click,
        }
    }
}

/// A button with a text.
pub open spec fn labelled(
    element_id: Seq<char>,
    label: Seq<char>,
    click: ButtonAction,
) -> ButtonModel {
    ButtonModel {
        element_id,
        label: Some(LabelModel::Message(label)),
        tooltip: None,
        enabled: true,
        click,
    }
}

/// A button with an icon only, whose tooltip says what it does.
pub open spec fn icon_button(
    element_id: Seq<char>,
    tooltip: Seq<char>,
    click: ButtonAction,
) -> ButtonModel {
    ButtonModel {
        element_id,
        label: None,
        tooltip: Some(LabelModel::Message(tooltip)),
        enabled: true,
        click,
    }
}

impl Button {
    /// A button with a text.
    pub fn labelled(element_id: &'static str, label: &'static str, click: ButtonAction) -> (r: Button)
        ensures
            r.deep_view() == labelled(element_id@, label@, click),
    {
        Button {
            element_id,
            label: Some(Label::Message(label)),
            tooltip: None,
            enabled: true,
            click,
        }
    }

    /// A button with an icon only, whose tooltip says what it does.
    pub fn icon(element_id: &'static str, tooltip: &'static str, click: ButtonAction) -> (r: Button)
        ensures
            r.deep_view() == icon_button(element_id@, tooltip@, click),
    {
        Button {
            element_id,
            label: None,
            tooltip: Some(Label::Message(tooltip)),
            enabled: true,
            click,
        }
    }
}

/// An input with its title, the hint and the tag beside it where it has them, and its text.
#[derive(Debug)]
pub struct InputField {
    pub element_id: Option<&'static str>,
    pub title: Label,
    pub tag: Option<Label>,
    pub hint: Option<Label>,
    pub text: String,
}

/// Model of [`InputField`].
#[verifier::ext_equal]
pub struct InputFieldModel {
    pub element_id: Option<Seq<char>>,
    pub title: LabelModel,
    pub tag: Option<LabelModel>,
    pub hint: Option<LabelModel>,
    pub text: Seq<char>,
}

impl DeepView for InputField {
    type V = InputFieldModel;

    open spec fn deep_view(&self) -> InputFieldModel {
        InputFieldModel {
            element_id: self.element_id.deep_view(),
            title: self.title.deep_view(),
            tag: self.tag.deep_view(),
            hint: self.hint.deep_view(),
            text: self.text@,
        }
    }
}

/// An input with a title.
pub open spec fn titled_input(title: Seq<char>, text: Seq<char>) -> InputFieldModel {
    InputFieldModel {
        element_id: None,
        title: LabelModel::Message(title),
        tag: None,
        hint: None,
        text,
    }
}

/// An input with a title and a hint.
pub open spec fn hinted_input(
    element_id: Option<Seq<char>>,
    title: Seq<char>,
    hint: Seq<char>,
    text: Seq<char>,
) -> InputFieldModel {
    InputFieldModel {
        element_id,
        hint: Some(LabelModel::Message(hint)),
        ..titled_input(title, text)
    }
}

impl InputField {
    /// An input with a title.
    pub fn titled(title: &'static str, text: &String) -> (r: InputField)
        ensures
            r.deep_view() == titled_input(title@, text@),
    {
        InputField {
            element_id: None,
            title: Label::Message(title),
            tag: None,
            hint: None,
            text: text.clone(),
        }
    }

    /// An input with a title and a hint.
    pub fn hinted(
        element_id: Option<&'static str>,
        title: &'static str,
        hint: &'static str,
        text: &String,
    ) -> (r: InputField)
        ensures
            r.deep_view() == hinted_input(element_id.deep_view(), title@, hint@, text@),
    {
        InputField {
            element_id,
            title: Label::Message(title),
            tag: None,
            hint: Some(Label::Message(hint)),
            text: text.clone(),
        }
    }
}

} // verus!
