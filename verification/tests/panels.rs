use open_timeline_gui::app_info::AppInfoGui;
use open_timeline_gui::backup::{
    offers_operation, ApiEndpoints, BackupMergeRestore, BackupMergeRestoreState, BackupSource,
    OperationStatus,
};
use open_timeline_gui::colours::{AppColoursRaw, ColourTheme, TimelineColoursRaw};
use open_timeline_gui::common::{
    name_availability, CrudOperationRequested, EntityOrTimeline, KeyPress, NewWindowRequest,
    OpenTimelineShortcut, Shortcut, ShortcutModifiers,
};
use open_timeline_gui::counts::{
    filter_rows, name_passes_filter, row_requests, CountsTable, EntityOrTimelineActionRequest,
    SortAlphabetically, SortByNumber, TableOrdering,
};
use open_timeline_gui::edit_window::{
    can_be_saved, differs_from_database_entry, reset_offered, EditRequests, EditStatus,
};
use open_timeline_gui::enums::CreateOrEdit;
use open_timeline_gui::paginator::{PageNavigation, Paginator};
use open_timeline_gui::search::{
    result_button_clicked, shown_result_count, SearchCriteria, SearchQuery, SearchRequest,
    SearchResultButtonClicked, SEARCH_LIMIT,
};
use open_timeline_gui::reload::{tag_has_gone, ReloadRequests, ReloadStart};
use open_timeline_gui::settings::{ConfigSaveAnswer, SettingsRequests, SettingsStatus};
use open_timeline_gui::tabs::{side_bar_tabs, MainTabSelected};
use open_timeline_gui::tag_edit::{
    delete_answer, display_tag, tag_request, tag_window_title, update_answer, TagBulkAction,
    TagRequestDecision,
};
use open_timeline_gui::tags::TagText;
use open_timeline_gui::timeline_view::{
    tag_filter_enabled_after_edit, tag_filter_update, DateLimits, TagFilterUpdate,
};
use open_timeline_gui::validity::ValidityAsynchronous;
use open_timeline_gui::windows::{
    BreakOutWindows, WindowInsert, deletion_countdown, edit_window_title, view_window_title, DeletedStatus, DeletionCountdown,
};

#[test]
fn paginator_getters_and_setters() {
    let mut p = Paginator::new(0, 95, 10);
    assert_eq!(p.page_index(), 0);
    assert_eq!(p.total_count(), 95);
    assert_eq!(p.items_per_page(), 10);
    p.set_total_count(40);
    p.set_items_per_page(20);
    p.set_page_index(1);
    assert_eq!((p.page_index(), p.total_count(), p.items_per_page()), (1, 40, 20));
}

#[test]
fn paginator_offers_the_pages_around_the_current_one() {
    let p = Paginator::new(0, 95, 10);
    assert_eq!(p.max_page_index(), 9);
    assert!(!p.offers(PageNavigation::TwoBack));
    assert!(!p.offers(PageNavigation::OneBack));
    assert!(p.offers(PageNavigation::OneForward));
    assert!(p.offers(PageNavigation::TwoForward));
    let last = Paginator::new(9, 95, 10);
    assert!(last.offers(PageNavigation::TwoBack));
    assert!(!last.offers(PageNavigation::OneForward));
    assert!(!last.offers(PageNavigation::TwoForward));
}

#[test]
fn paginator_navigates() {
    let mut p = Paginator::new(0, 95, 10);
    p.navigate(PageNavigation::TwoForward);
    assert_eq!(p.page_index(), 2);
    p.navigate(PageNavigation::Next);
    assert_eq!(p.page_index(), 3);
    p.navigate(PageNavigation::Previous);
    assert_eq!(p.page_index(), 2);
    p.navigate(PageNavigation::Last);
    assert_eq!(p.page_index(), 9);
    p.navigate(PageNavigation::Next);
    assert_eq!(p.page_index(), 9);
    p.navigate(PageNavigation::OneBack);
    assert_eq!(p.page_index(), 8);
    p.navigate(PageNavigation::First);
    assert_eq!(p.page_index(), 0);
    p.navigate(PageNavigation::Previous);
    assert_eq!(p.page_index(), 0);
}

#[test]
fn paginator_pages_tile_the_items() {
    let mut p = Paginator::new(0, 95, 10);
    assert_eq!(p.page_bounds(), (0, 10));
    p.navigate(PageNavigation::Last);
    assert_eq!(p.page_bounds(), (90, 95));
    let exact = Paginator::new(2, 20, 10);
    assert_eq!(exact.max_page_index(), 2);
    assert_eq!(exact.page_bounds(), (20, 20));
}

#[test]
fn search_request_follows_the_criteria() {
    let mut c = SearchCriteria::new();
    assert_eq!(c.request(), SearchRequest::ByPartialName);
    c.name_search_active = false;
    assert_eq!(c.request(), SearchRequest::ClearResults);
    c.tag_boolean_expr_search_active = true;
    assert_eq!(c.request(), SearchRequest::ByBoolTagExpr);
    c.name_search_active = true;
    assert_eq!(c.request(), SearchRequest::ByPartialNameAndBoolTagExpr);
}

#[test]
fn search_inputs_activate_their_criteria() {
    let mut c = SearchCriteria::new();
    c.name_search_active = false;
    assert!(c.inputs_changed(false, true, "  "));
    assert!(!c.tag_boolean_expr_search_active);
    assert!(c.inputs_changed(false, true, "person"));
    assert!(c.tag_boolean_expr_search_active);
    assert!(!c.name_search_active);
    assert!(c.inputs_changed(true, false, ""));
    assert!(c.name_search_active);
    assert!(!c.inputs_changed(false, false, ""));
}

#[test]
fn search_results_are_shown_when_there_are_some() {
    let mut c = SearchCriteria::new();
    assert!(c.shows_results(3));
    assert!(!c.shows_results(0));
    c.name_search_active = false;
    assert!(!c.shows_results(3));
    assert_eq!(SEARCH_LIMIT, 75);
    assert_eq!(shown_result_count(10), 10);
    assert_eq!(shown_result_count(75), 75);
    assert_eq!(shown_result_count(76), 75);
    assert_eq!(shown_result_count(200), 75);
}

#[test]
fn search_query_carries_the_name_and_the_parsed_expression() {
    let mut c = SearchCriteria::new();
    c.name_search = String::from("Ada");
    assert!(matches!(c.query("anything"), SearchQuery::ByPartialName(n) if n == "Ada"));
    c.name_search_active = false;
    assert!(matches!(c.query(""), SearchQuery::Clear));
    c.tag_boolean_expr_search_active = true;
    assert!(matches!(c.query("person"), SearchQuery::ByBoolTagExpr(_)));
    assert!(matches!(c.query("(person"), SearchQuery::ParseFailed(_)));
    c.name_search_active = true;
    assert!(
        matches!(c.query("person & scientist"), SearchQuery::ByPartialNameAndBoolTagExpr(n, _) if n == "Ada")
    );
    assert!(matches!(c.query("& &"), SearchQuery::ParseFailed(_)));
}

#[test]
fn counts_ordering_cycles_and_excludes_the_other() {
    let mut o = TableOrdering::new();
    assert!(o.count_header_clicked());
    assert_eq!(o.count_ordering, Some(SortByNumber::Ascending));
    o.count_header_clicked();
    assert_eq!(o.count_ordering, Some(SortByNumber::Descending));
    o.name_header_clicked();
    assert_eq!(o.count_ordering, None);
    assert_eq!(o.name_ordering, Some(SortAlphabetically::AToZ));
    o.name_header_clicked();
    assert_eq!(o.name_ordering, Some(SortAlphabetically::ZToA));
    o.name_header_clicked();
    assert_eq!(o, TableOrdering::new());
}

#[test]
fn counts_filter_ignores_ascii_case() {
    assert!(name_passes_filter("World War II", "war"));
    assert!(name_passes_filter("anything", ""));
    assert!(!name_passes_filter("Rome", "greece"));
    let names = vec![String::from("Rome"), String::from("Greece"), String::from("ROMAN Empire")];
    assert_eq!(filter_rows(&names, "rom"), Some(vec![0, 2]));
    assert_eq!(filter_rows(&names, "xyz"), None);
    assert_eq!(filter_rows(&names, ""), Some(vec![0, 1, 2]));
}

#[test]
fn tabs_have_their_labels() {
    assert_eq!(MainTabSelected::Search.to_label_text(), "Search");
    assert_eq!(MainTabSelected::BackupRestoreMerge.to_label_text(), "Backup | Restore | Merge");
    assert_eq!(MainTabSelected::GameLeftRight.to_label_text(), "Left/Right");
    assert_eq!(MainTabSelected::AppInfo.to_label_text(), "Information");
    assert!(MainTabSelected::GameWhichDate.is_game());
    assert!(!MainTabSelected::Stats.is_game());
    assert!(MainTabSelected::Stats.draws_break_out_windows());
    assert!(!MainTabSelected::BackupRestoreMerge.draws_break_out_windows());
    assert!(!MainTabSelected::GameDecades.draws_break_out_windows());
    let tabs = side_bar_tabs();
    assert_eq!(tabs.len(), 13);
    let labels: Vec<String> = tabs.iter().map(|t| t.to_label_text()).collect();
    let mut unique = labels.clone();
    unique.sort();
    unique.dedup();
    assert_eq!(unique.len(), labels.len());
}

#[test]
fn api_endpoints_default_to_the_open_timeline_api() {
    let api = ApiEndpoints::open_timeline();
    assert_eq!(api.entities.url, "https://www.open-timeline.org/api/v1/entities/full");
    assert_eq!(api.timelines.url, "https://www.open-timeline.org/api/v1/timelines/edit");
    assert!(!api.entities.url_editable());
    assert!(!api.timelines.enable_edit);
}

#[test]
fn web_api_cannot_be_backed_up_to() {
    assert!(offers_operation(BackupSource::Files, BackupMergeRestore::Backup));
    assert!(!offers_operation(BackupSource::WebApi, BackupMergeRestore::Backup));
    assert!(offers_operation(BackupSource::WebApi, BackupMergeRestore::Merge));
    assert!(offers_operation(BackupSource::WebApi, BackupMergeRestore::Restore));
}

#[test]
fn backup_answer_settles_the_operation() {
    let mut state: BackupMergeRestoreState<String> = BackupMergeRestoreState::new();
    assert!(matches!(state.status(), OperationStatus::Ready));
    assert!(!state.receive(Ok(())));
    state.start(BackupMergeRestore::Merge);
    assert!(state.waiting_for_updates());
    assert!(matches!(state.status(), OperationStatus::InProgress));
    assert!(state.receive(Ok(())));
    assert!(matches!(state.status(), OperationStatus::Success(BackupMergeRestore::Merge)));
    assert!(!state.waiting_for_updates());
    assert!(!state.receive(Err(String::from("late"))));
    assert!(matches!(state.status(), OperationStatus::Success(BackupMergeRestore::Merge)));
    state.start(BackupMergeRestore::Restore);
    assert!(!state.receive(Err(String::from("offline"))));
    assert!(matches!(state.status(), OperationStatus::Failure(e) if e == "offline"));
}

#[test]
fn deleted_window_counts_down_then_closes() {
    assert_eq!(deletion_countdown(0), DeletionCountdown::ClosesIn(5));
    assert_eq!(deletion_countdown(4), DeletionCountdown::ClosesIn(1));
    assert_eq!(deletion_countdown(5), DeletionCountdown::Close);
    assert_eq!(deletion_countdown(1000), DeletionCountdown::Close);
    assert!(DeletedStatus::Deleted(std::time::Instant::now()).has_been_deleted());
    assert!(!DeletedStatus::NotDeleted.has_been_deleted());
}

#[test]
fn shortcuts_need_the_command_key() {
    let pressed = KeyPress { key_pressed: true, shift: false, mac_cmd: false, command: true };
    assert!(Shortcut::save(pressed));
    assert!(Shortcut::close_window(KeyPress { mac_cmd: true, command: false, ..pressed }));
    assert!(!Shortcut::save(KeyPress { command: false, ..pressed }));
    assert!(!Shortcut::cmd_and_enter(KeyPress { key_pressed: false, ..pressed }));
    assert!(!Shortcut::cmd_shift_and_k(pressed));
    assert!(Shortcut::cmd_shift_and_k(KeyPress { shift: true, ..pressed }));
}

#[test]
fn name_availability_follows_the_database() {
    assert_eq!(name_availability::<String>(Ok(false), String::from("taken")), Ok(()));
    assert_eq!(name_availability::<String>(Ok(true), String::from("taken")), Err(String::from("taken")));
    assert_eq!(
        name_availability::<String>(Err(String::from("db")), String::from("taken")),
        Err(String::from("db"))
    );
    assert_ne!(CrudOperationRequested::Delete, CrudOperationRequested::CreateOrUpdate);
    assert_ne!(EntityOrTimeline::Entity, EntityOrTimeline::Timeline);
}

#[test]
fn app_info_names_the_system() {
    let _ = AppInfoGui::new();
    assert_eq!(AppInfoGui::operating_system_name("windows"), "Windows");
    assert_eq!(AppInfoGui::operating_system_name("macos"), "macOS");
    assert_eq!(AppInfoGui::operating_system_name("linux"), "Linux");
    assert_eq!(AppInfoGui::operating_system_name("freebsd"), "freebsd");
    assert_eq!(AppInfoGui::architecture_name("aarch64"), "arm64");
    assert_eq!(AppInfoGui::architecture_name("x86_64"), "x86_64");
}

#[test]
fn colour_inputs_hold_bytes() {
    let app = AppColoursRaw {
        text: [1, 2, 3],
        panel: [0; 3],
        button_fill: [0; 3],
        separator_lines: [0; 3],
        text_inputs: [0; 3],
        checkbox_and_radio: [0; 3],
        side_panel_menu_button_fill: [0; 3],
        side_panel_menu_button_text: [0; 3],
        donate_button_fill: [0; 3],
        donate_button_text: [0; 3],
        hyperlink: [255; 3],
    };
    assert_eq!(app.text, [1, 2, 3]);
    let timeline = TimelineColoursRaw {
        background_a: [9; 3],
        background_b: [8; 3],
        dividing_line_colour: [7; 3],
        entity_text_box_fill_colour: [6; 3],
        entity_date_box_fill_colour: [5; 3],
        entity_text_colour: [4; 3],
        heading_text_colour: [3; 3],
        heading_fill_colour: [2; 3],
    };
    assert_eq!(timeline.background_b, [8; 3]);
}

#[test]
fn date_limits_never_cross() {
    let mut l = DateLimits::new();
    assert_eq!((l.start, l.end, l.start_enabled, l.end_enabled), (1850, 2050, false, false));
    l.start = 2100;
    l.start_changed();
    assert_eq!((l.start, l.end, l.start_enabled), (2050, 2050, true));
    l.end = 1000;
    l.end_changed();
    assert_eq!((l.start, l.end, l.end_enabled), (2050, 2050, true));
    l.set_span(1900, 1950);
    assert_eq!(l.active(), (Some(1900), Some(1950)));
    l.start_enabled = false;
    assert_eq!(l.active(), (None, Some(1950)));
}

#[test]
fn tag_filter_follows_its_expression() {
    assert!(!tag_filter_enabled_after_edit("   "));
    assert!(tag_filter_enabled_after_edit(" person "));
    assert!(matches!(tag_filter_update(false, "person"), TagFilterUpdate::Remove));
    assert!(matches!(tag_filter_update(true, "person"), TagFilterUpdate::Filter(_)));
    assert!(matches!(tag_filter_update(true, "(person"), TagFilterUpdate::Keep));
}

#[test]
fn edit_window_saves_only_changed_valid_things() {
    assert_eq!(differs_from_database_entry(CreateOrEdit::Create, true, false), None);
    assert_eq!(differs_from_database_entry(CreateOrEdit::Edit, false, false), None);
    assert_eq!(differs_from_database_entry(CreateOrEdit::Edit, true, true), Some(false));
    assert_eq!(differs_from_database_entry(CreateOrEdit::Edit, true, false), Some(true));
    assert!(can_be_saved(None, true));
    assert!(can_be_saved(Some(true), true));
    assert!(!can_be_saved(Some(false), true));
    assert!(!can_be_saved(Some(true), false));
    assert!(reset_offered(None));
    assert!(!reset_offered(Some(false)));
}

#[test]
fn created_thing_is_then_edited() {
    let mut w: EditRequests<String> = EditRequests::new_for_creating();
    assert!(matches!(w.status(), EditStatus::NewWindowForCreation));
    assert!(!w.request_save(false));
    assert!(!w.shows_spinner());
    assert!(w.request_save(true));
    assert!(w.shows_spinner());
    assert!(w.receive_save_answer(Ok(())));
    assert!(matches!(w.status(), EditStatus::Updated));
    assert_eq!(w.create_or_edit(), CreateOrEdit::Edit);
    assert!(!w.shows_spinner());
    w.request_save(true);
    assert!(!w.receive_save_answer(Err(String::from("db"))));
    assert!(matches!(w.status(), EditStatus::UpdateError(e) if e == "db"));
}

#[test]
fn deleted_thing_reports_deletion() {
    let mut w: EditRequests<String> = EditRequests::new_for_editing();
    assert!(!w.receive_delete_answer(Ok(())));
    w.request_delete();
    assert!(w.shows_spinner());
    assert!(w.receive_delete_answer(Ok(())));
    assert!(matches!(w.status(), EditStatus::Deleted));
    w.request_delete();
    assert!(!w.receive_delete_answer(Err(String::from("locked"))));
    assert!(matches!(w.status(), EditStatus::DeleteError(e) if e == "locked"));
    w.set_status(EditStatus::HasBeenDeletedElseWhere);
    assert!(matches!(w.status(), EditStatus::HasBeenDeletedElseWhere));
}

#[test]
fn tag_bulk_edit_requests() {
    assert_eq!(
        tag_request(TagBulkAction::Update, &ValidityAsynchronous::Valid, false),
        TagRequestDecision::Send
    );
    assert_eq!(
        tag_request(TagBulkAction::Update, &ValidityAsynchronous::Valid, true),
        TagRequestDecision::Ignore
    );
    assert_eq!(
        tag_request(TagBulkAction::Delete, &ValidityAsynchronous::Valid, true),
        TagRequestDecision::Send
    );
    assert_eq!(
        tag_request(TagBulkAction::Update, &ValidityAsynchronous::Invalid(String::from("x")), false),
        TagRequestDecision::Refuse(String::from("Tag can't be updated (error: x)"))
    );
    assert_eq!(
        tag_request(TagBulkAction::Delete, &ValidityAsynchronous::Invalid(String::from("y")), false),
        TagRequestDecision::Refuse(String::from("Tag can't be deleted (error: y)"))
    );
    assert_eq!(
        tag_request(TagBulkAction::Delete, &ValidityAsynchronous::Waiting, false),
        TagRequestDecision::Refuse(String::from("Waiting for validation"))
    );
}

fn colours(first: u8) -> AppColoursRaw {
    AppColoursRaw {
        text: [first, 0, 0],
        panel: [0; 3],
        button_fill: [0; 3],
        separator_lines: [0; 3],
        text_inputs: [0; 3],
        checkbox_and_radio: [0; 3],
        side_panel_menu_button_fill: [0; 3],
        side_panel_menu_button_text: [0; 3],
        donate_button_fill: [0; 3],
        donate_button_text: [0; 3],
        hyperlink: [0; 3],
    }
}

#[test]
fn settings_switch_database_only_after_saving() {
    let mut s: SettingsRequests<String> = SettingsRequests::new(ColourTheme::System, colours(0));
    assert!(s.controls_enabled());
    s.database_chosen();
    assert!(!s.controls_enabled());
    assert!(s.waiting_for_updates());
    assert!(s.receive_config_saved(ConfigSaveAnswer::Saved));
    assert!(s.waiting_for_updates());
    assert!(s.receive_pool_switched(Ok(())));
    assert!(matches!(s.status(), SettingsStatus::SuccessfullyChangedDatabase));
    assert!(!s.waiting_for_updates());
    assert!(s.controls_enabled());
    s.database_chosen();
    assert!(!s.receive_config_saved(ConfigSaveAnswer::IncompatibleSchema));
    assert!(matches!(s.status(), SettingsStatus::DatabaseHasDifferentSchema));
    assert!(!s.receive_pool_switched(Ok(())));
    s.database_chosen();
    assert!(!s.receive_config_saved(ConfigSaveAnswer::Failed(String::from("disk"))));
    assert!(matches!(s.status(), SettingsStatus::CrudError(e) if e == "disk"));
}

#[test]
fn settings_theme_answer_hides_the_save_button() {
    let mut s: SettingsRequests<String> = SettingsRequests::new(ColourTheme::System, colours(0));
    assert_eq!(s.custom_colours_received(colours(7)), ColourTheme::Custom(colours(7)));
    assert!(s.shows_save_colours_button());
    let theme = s.theme();
    assert_eq!(s.theme_chosen(theme), ColourTheme::Custom(colours(7)));
    s.receive_theme_saved(Ok(()));
    assert!(!s.shows_save_colours_button());
    assert!(matches!(s.status(), SettingsStatus::SuccessfullyChangedTheme));
    s.theme_chosen(ColourTheme::Dark);
    s.receive_theme_saved(Err(String::from("x")));
    assert!(matches!(s.status(), SettingsStatus::CrudError(_)));
}

#[test]
fn settings_custom_colours_become_the_theme() {
    let mut s: SettingsRequests<String> = SettingsRequests::new(ColourTheme::Light, colours(1));
    assert!(!s.shows_edit_custom_colours());
    assert_eq!(s.custom_choice(), ColourTheme::Custom(colours(1)));
    assert_eq!(s.custom_colours_received(colours(2)), ColourTheme::Custom(colours(2)));
    assert_eq!(s.theme(), ColourTheme::Custom(colours(2)));
    assert!(s.shows_edit_custom_colours());
    assert_eq!(s.custom_choice(), ColourTheme::Custom(colours(2)));
    assert_eq!(s.custom_theme(), colours(1));
    s.theme_chosen(ColourTheme::Custom(colours(2)));
    assert_eq!(s.custom_theme(), colours(2));
    s.theme_chosen(ColourTheme::Siphonophore);
    assert_eq!(s.theme(), ColourTheme::Siphonophore);
    assert_eq!(s.custom_theme(), colours(2));
    assert_eq!(s.custom_choice(), ColourTheme::Custom(colours(2)));
}

#[test]
fn counts_table_filter_goes_back_to_the_first_page() {
    let mut t = CountsTable::new(2);
    assert_eq!(*t.rows(), None);
    assert_eq!(t.page_rows(), None);
    let names = vec![
        String::from("Rome"),
        String::from("Greece"),
        String::from("Roman Empire"),
        String::from("Romania"),
        String::from("Egypt"),
    ];
    t.receive_names(names);
    assert_eq!(*t.rows(), Some(vec![0, 1, 2, 3, 4]));
    assert_eq!(t.page_rows(), Some(vec![0, 1]));
    assert_eq!(t.paginator().total_count(), 5);
    t.navigate(PageNavigation::Next);
    assert_eq!(t.paginator().page_index(), 1);
    assert_eq!(t.page_rows(), Some(vec![2, 3]));
    t.navigate(PageNavigation::Last);
    assert_eq!(t.page_rows(), Some(vec![4]));
    t.filter_changed(String::from("ROM"));
    assert_eq!(t.filter_text(), "ROM");
    assert_eq!(t.paginator().page_index(), 0);
    assert_eq!(*t.rows(), Some(vec![0, 2, 3]));
    assert_eq!(t.page_rows(), Some(vec![0, 2]));
    t.filter_changed(String::from("xyz"));
    assert_eq!(*t.rows(), None);
    assert_eq!(t.page_rows(), None);
}

#[test]
fn counts_row_buttons_send_their_requests() {
    assert_eq!(row_requests(true, false, 7u64), vec![EntityOrTimelineActionRequest::EditExisting(7)]);
    assert_eq!(row_requests(false, true, 7u64), vec![EntityOrTimelineActionRequest::ViewExisting(7)]);
    assert_eq!(
        row_requests(true, true, 3u64),
        vec![EntityOrTimelineActionRequest::EditExisting(3), EntityOrTimelineActionRequest::ViewExisting(3)]
    );
    assert!(row_requests(false, false, 3u64).is_empty());
}

#[test]
fn window_titles_name_what_they_show() {
    assert_eq!(
        edit_window_title(EntityOrTimeline::Entity, CreateOrEdit::Create, "Ada"),
        "Create Entity • Ada"
    );
    assert_eq!(
        edit_window_title(EntityOrTimeline::Timeline, CreateOrEdit::Edit, "WW2"),
        "Edit Timeline • WW2"
    );
    assert_eq!(view_window_title(EntityOrTimeline::Entity, None), "View Entity  -  [loading]");
    assert_eq!(
        view_window_title(EntityOrTimeline::Timeline, Some("Rome")),
        "View Timeline • Rome"
    );
}

#[test]
fn edit_status_messages() {
    let s: EditStatus<String> = EditStatus::NewWindowForCreation;
    assert_eq!(s.message(EntityOrTimeline::Entity), "Ready to create an entity");
    assert_eq!(s.message(EntityOrTimeline::Timeline), "Ready to create an timeline");
    let s: EditStatus<String> = EditStatus::UpdateError(String::from("locked"));
    assert_eq!(
        s.message(EntityOrTimeline::Entity),
        "Error when trying to update entity: locked"
    );
    let s: EditStatus<String> = EditStatus::Invalid(String::from("no name"));
    assert_eq!(s.message(EntityOrTimeline::Timeline), "Timeline is invalid: no name");
    let s: EditStatus<String> = EditStatus::HasBeenDeletedElseWhere;
    assert_eq!(s.message(EntityOrTimeline::Entity), "Entity was deleted elsewhere");
}

#[test]
fn settings_and_backup_status_messages() {
    assert_eq!(SettingsStatus::<String>::Ready.message(), Some(String::from("Ready")));
    assert_eq!(SettingsStatus::<String>::WaitingForResponse.message(), None);
    assert_eq!(
        SettingsStatus::CrudError(String::from("disk full")).message(),
        Some(String::from("Error: disk full"))
    );
    assert_eq!(
        SettingsStatus::<String>::DatabaseHasDifferentSchema.message(),
        Some(String::from("Error: selected database has incompatible schema"))
    );
    assert_eq!(OperationStatus::<String>::InProgress.message(), None);
    assert_eq!(
        OperationStatus::<String>::Success(BackupMergeRestore::Restore).message(),
        Some(String::from("Success: Restore"))
    );
    assert_eq!(
        OperationStatus::Failure(String::from("offline")).message(),
        Some(String::from("Error: offline"))
    );
}

#[test]
fn tags_are_written_as_the_tag_crate_writes_them() {
    let named = TagText { name: Some(String::from("nationality")), value: String::from("british") };
    let bare = TagText { name: None, value: String::from("person") };
    assert_eq!(display_tag(&named), "nationality=british");
    assert_eq!(display_tag(&bare), "=person");
    let real = bool_tag_expr::Tag::from(
        Some(bool_tag_expr::TagName::from("nationality").unwrap()),
        bool_tag_expr::TagValue::from("british").unwrap(),
    );
    assert_eq!(display_tag(&named), real.to_string());
    assert_eq!(tag_window_title(true, &bare), "Edit Tag • =person");
    assert_eq!(tag_window_title(false, &named), "View Tag • nationality=british");
}

#[test]
fn tag_bulk_edit_answers() {
    assert_eq!(update_answer(&Ok(())), (String::from("Updated tag"), true));
    assert_eq!(
        update_answer(&Err(String::from("db"))),
        (String::from("Failed to update tag: db"), false)
    );
    let tag = TagText { name: None, value: String::from("person") };
    assert_eq!(
        delete_answer(&tag, &Ok(())),
        (String::from("Sucessfully deleted '=person'"), true)
    );
    assert_eq!(
        delete_answer(&tag, &Err(String::from("db"))),
        (String::from("Failed to delete '=person': db"), false)
    );
}

#[test]
fn reload_fetches_only_what_is_there() {
    let mut r = ReloadRequests::new();
    assert_eq!(r.request(true, true), ReloadStart::Nothing);
    assert!(!r.shows_spinner());
    assert_eq!(r.request(false, false), ReloadStart::MarkDeleted);
    assert!(!r.shows_spinner());
    assert_eq!(r.request(false, true), ReloadStart::Fetch);
    assert!(r.shows_spinner());
    r.answered();
    assert!(!r.shows_spinner());
    assert!(tag_has_gone(0, 0));
    assert!(!tag_has_gone(0, 1));
}

#[test]
fn break_out_windows_open_once_per_id() {
    let mut w: BreakOutWindows<&str> = BreakOutWindows::new();
    assert_eq!(w.insert(7, "entity 7"), WindowInsert::Opened);
    assert_eq!(w.insert(9, "timeline 9"), WindowInsert::Opened);
    assert_eq!(w.insert(7, "entity 7 again"), WindowInsert::FocusExisting);
    assert_eq!(w.ids(), vec![7, 9]);
    assert!(w.contains(9));
    assert_eq!(w.remove(7), Some("entity 7"));
    assert_eq!(w.remove(7), None);
    assert!(!w.contains(7));
    assert_eq!(w.ids(), vec![9]);
}

#[test]
fn global_shortcuts_ask_for_new_windows() {
    let mac = OpenTimelineShortcut::modifiers(true);
    assert_eq!(mac, ShortcutModifiers { mac_cmd: true, ctrl: false, shift: true });
    let other = OpenTimelineShortcut::modifiers(false);
    assert_eq!(other, ShortcutModifiers { mac_cmd: false, ctrl: true, shift: true });
    assert_eq!(OpenTimelineShortcut::key(NewWindowRequest::CreateEntity), 'E');
    assert_eq!(OpenTimelineShortcut::key(NewWindowRequest::CreateTimeline), 'T');
    assert_eq!(
        OpenTimelineShortcut::requests(true, true),
        vec![NewWindowRequest::CreateEntity, NewWindowRequest::CreateTimeline]
    );
    assert_eq!(OpenTimelineShortcut::requests(false, true), vec![NewWindowRequest::CreateTimeline]);
    assert!(OpenTimelineShortcut::requests(false, false).is_empty());
}

#[test]
fn search_checkboxes_rerun_the_search_when_they_change() {
    let mut c = SearchCriteria::new();
    assert!(!c.checkboxes_set(true, false));
    assert!(c.checkboxes_set(true, true));
    assert!(c.name_search_active && c.tag_boolean_expr_search_active);
    assert!(c.checkboxes_set(false, true));
    assert!(!c.name_search_active);
    assert_eq!(c.request(), SearchRequest::ByBoolTagExpr);
    assert!(c.checkboxes_set(false, false));
    assert_eq!(c.request(), SearchRequest::ClearResults);
}

#[test]
fn search_result_buttons_ask_to_view_or_edit() {
    assert!(matches!(result_button_clicked(true, false, 4), Some(SearchResultButtonClicked::Edit(4))));
    assert!(matches!(result_button_clicked(false, true, 4), Some(SearchResultButtonClicked::View(4))));
    assert!(matches!(result_button_clicked(true, true, 4), Some(SearchResultButtonClicked::View(4))));
    assert!(result_button_clicked(false, false, 4).is_none());
}
