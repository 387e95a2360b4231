use seris::commands::{
    clear_permission, clear_start, deletable_ids, epic_reply, epic_request, ClearRefusal, ClearStep, EpicReply,
    EpicRefusal, EpicRequest, CLEAR_MESSAGE_LIMIT,
};
use seris::services::epic::EpicImage;

fn image(id: &str) -> EpicImage {
    EpicImage {
        image: id.to_string(),
        caption: "Earth".to_string(),
        date: "2026-04-09 01:13:59".to_string(),
        url: "https://example.com/epic.png".to_string(),
    }
}

#[test]
fn clear_outside_a_server_is_refused() {
    assert_eq!(clear_start(None), ClearStep::Refuse(ClearRefusal::NotInGuild));
    assert_eq!(
        ClearRefusal::NotInGuild.text(),
        "Sinto muito — isso só pode ser executado em um servidor"
    );
}

#[test]
fn clear_in_a_server_looks_it_up() {
    assert_eq!(clear_start(Some(77)), ClearStep::LookUpGuild(77));
}

#[test]
fn clear_needs_a_known_owner() {
    assert_eq!(clear_permission(None, 5), ClearStep::Refuse(ClearRefusal::PermissionsUnknown));
    assert_eq!(
        ClearRefusal::PermissionsUnknown.text(),
        "Sinto muito. Não consegui confirmar as permissões do servidor"
    );
}

#[test]
fn clear_is_for_the_owner_only() {
    assert_eq!(clear_permission(Some(6), 5), ClearStep::Refuse(ClearRefusal::OwnerOnly));
    assert_eq!(
        ClearRefusal::OwnerOnly.text(),
        "Sinto muito. Só o dono do servidor pode apagar mensagens"
    );
}

#[test]
fn clear_by_the_owner_deletes_forty_at_most() {
    assert_eq!(CLEAR_MESSAGE_LIMIT, 40);
    assert_eq!(clear_permission(Some(5), 5), ClearStep::DeleteRecent(40));
}

#[test]
fn clear_drops_messages_that_failed_to_load() {
    assert_eq!(deletable_ids(&vec![Some(10), None, Some(12), None]), vec![10, 12]);
    assert_eq!(deletable_ids(&vec![None, None]), Vec::<u64>::new());
    assert_eq!(deletable_ids(&Vec::new()), Vec::<u64>::new());
}

#[test]
fn epic_without_date_fetches_the_latest_day() {
    assert!(matches!(epic_request(None), EpicRequest::Fetch(None)));
}

#[test]
fn epic_accepts_an_iso_date() {
    match epic_request(Some("2024-01-05".to_string())) {
        EpicRequest::Fetch(Some(date)) => assert_eq!(date, "2024-01-05"),
        _ => panic!("an ISO date is fetched"),
    }
}

#[test]
fn epic_refuses_other_dates() {
    assert!(matches!(
        epic_request(Some("05/01/2024".to_string())),
        EpicRequest::Refuse(EpicRefusal::InvalidDate)
    ));
    assert!(matches!(
        epic_request(Some("2024-13-01".to_string())),
        EpicRequest::Refuse(EpicRefusal::InvalidDate)
    ));
    assert_eq!(
        EpicRefusal::InvalidDate.text(),
        "D-desculpe... a data precisa estar no formato YYYY-MM-DD."
    );
}

#[test]
fn epic_failed_fetch_asks_to_try_later() {
    assert!(matches!(
        epic_reply(1, "natural".to_string(), None),
        EpicReply::Refuse(EpicRefusal::TryLater)
    ));
    assert_eq!(EpicRefusal::TryLater.text(), "D-desculpe... tente novamente mais tarde.");
}

#[test]
fn epic_without_images_says_so() {
    assert!(matches!(
        epic_reply(1, "natural".to_string(), Some(Vec::new())),
        EpicReply::Refuse(EpicRefusal::NoImages)
    ));
    assert_eq!(EpicRefusal::NoImages.text(), "E-eu não encontrei imagens EPIC para essa data.");
}

#[test]
fn epic_with_images_opens_a_gallery() {
    match epic_reply(9, "enhanced".to_string(), Some(vec![image("a"), image("b")])) {
        EpicReply::Show(session) => {
            assert_eq!(session.owner_id(), 9);
            assert_eq!(session.kind(), "enhanced");
            assert_eq!(session.total_pages(), 2);
            assert_eq!(session.current_index(), 0);
            assert_eq!(session.current_image().image, "a");
        }
        EpicReply::Refuse(_) => panic!("images open a gallery"),
    }
}
