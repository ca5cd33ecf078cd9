use gear_connector::ipfs_client::{
    concat_chunks, IpfsClient, IpfsCommand, IpfsReply, StoreAsked, StoreRequest, StoreResult,
    StoreStep,
};

#[test]
fn chunks_are_put_together_in_order() {
    assert_eq!(concat_chunks(&vec![vec![1, 2], vec![], vec![3], vec![4, 5, 6]]), vec![1, 2, 3, 4, 5, 6]);
    assert_eq!(concat_chunks(&vec![]), Vec::<u8>::new());
    assert_eq!(concat_chunks(&vec![vec![9]]), vec![9]);
}

#[test]
fn an_upload_names_the_blob() {
    let mut client = IpfsClient::new();
    assert_eq!(client.asked, StoreAsked::Nothing);
    let step = client.process_command(IpfsCommand::UploadData {
        filename: "g1".to_string(),
        data: vec![1, 2, 3],
    });
    assert_eq!(step, StoreStep::Ask(StoreRequest::Add { data: vec![1, 2, 3] }));
    assert_eq!(client.asked, StoreAsked::Upload);
    let reply = client.process_result(StoreResult::Added {
        name: "Qm1".to_string(),
        hash: "Qm1".to_string(),
    });
    assert_eq!(reply, Some(IpfsReply::Uploaded { name: "Qm1".to_string(), hash: "Qm1".to_string() }));
    assert_eq!(client.asked, StoreAsked::Nothing);
}

#[test]
fn a_download_is_answered_with_all_its_chunks() {
    let mut client = IpfsClient::new();
    let step = client.process_command(IpfsCommand::DownloadData { hash: "Qm1".to_string() });
    assert_eq!(step, StoreStep::Ask(StoreRequest::Cat { hash: "Qm1".to_string() }));
    assert_eq!(client.asked, StoreAsked::Download);
    let reply = client.process_result(StoreResult::Chunks(vec![vec![1], vec![2, 3]]));
    assert_eq!(reply, Some(IpfsReply::Downloaded { data: vec![1, 2, 3] }));
    let step = client.process_command(IpfsCommand::DownloadTar { hash: "Qm2".to_string() });
    assert_eq!(step, StoreStep::Ask(StoreRequest::TarCat { hash: "Qm2".to_string() }));
    assert_eq!(
        client.process_result(StoreResult::Chunks(vec![])),
        Some(IpfsReply::Downloaded { data: vec![] })
    );
}

#[test]
fn a_failure_is_an_error_reply() {
    let mut client = IpfsClient::new();
    client.process_command(IpfsCommand::DownloadData { hash: "Qm1".to_string() });
    assert_eq!(
        client.process_result(StoreResult::Failed("not found".to_string())),
        Some(IpfsReply::Failed { reason: "not found".to_string() })
    );
    assert_eq!(client.asked, StoreAsked::Nothing);
}

#[test]
fn an_answer_that_was_not_asked_for_is_an_error_reply() {
    let mut client = IpfsClient::new();
    client.process_command(IpfsCommand::DownloadData { hash: "Qm1".to_string() });
    assert_eq!(
        client.process_result(StoreResult::Added { name: "a".to_string(), hash: "b".to_string() }),
        Some(IpfsReply::Failed {
            reason: "the store gave an answer that was not asked for".to_string()
        })
    );
    assert_eq!(client.process_result(StoreResult::Chunks(vec![vec![1]])), None);
}

#[test]
fn a_second_store_command_is_handed_back_while_a_reply_is_owed() {
    let mut client = IpfsClient::new();
    client.process_command(IpfsCommand::DownloadData { hash: "Qm1".to_string() });
    let second = IpfsCommand::UploadData { filename: "g".to_string(), data: vec![7] };
    assert_eq!(client.process_command(second.clone()), StoreStep::Refused(second));
    assert_eq!(client.asked, StoreAsked::Download);
}
