use server_cruncher::application::{get_counter, get_id, bump_counter, Application, IdCounter};
use server_cruncher::models::{
    CreatedFrom, Image, ImageStatus, ImageType, Server, ServerStatus,
};

fn empty_snapshot() -> Image {
    Image {
        id: 0,
        name: None,
        description: String::new(),
        image_type: ImageType::Snapshot,
        status: ImageStatus::Available,
        created_from: None,
        bound_to: None,
    }
}

fn empty_server() -> Server {
    Server {
        id: 0,
        name: String::new(),
        status: ServerStatus::Running,
        datacenter: String::new(),
        ipv4: None,
    }
}

fn named_server(name: &str) -> Server {
    Server { name: name.to_string(), ..empty_server() }
}

fn derived_from(name: &str) -> Image {
    Image {
        created_from: Some(CreatedFrom { id: 0, name: name.to_string() }),
        ..empty_snapshot()
    }
}

#[test]
fn is_image_related() {
    let unrelated_image = empty_snapshot();
    let application = Application {
        id: 0,
        name: Some("unique".to_string()),
        status: None,
        images: None,
        servers: None,
    };

    let mut related_image = unrelated_image.clone();
    related_image.created_from = Some(CreatedFrom { id: 0, name: "unique".to_string() });

    assert!(application.is_image_related(&related_image));
    assert!(!application.is_image_related(&unrelated_image));
}

#[test]
fn nameless_application_is_related_to_no_image() {
    let application =
        Application { id: 0, name: None, status: None, images: None, servers: None };
    assert!(!application.is_image_related(&derived_from("")));
    assert!(!application.is_image_related(&derived_from("unique")));
    assert!(!application.is_image_related(&empty_snapshot()));
    let named = Application { name: Some("Unique".to_string()), ..application };
    assert!(!named.is_image_related(&derived_from("unique")));
    assert!(named.is_image_related(&derived_from("Unique")));
}

#[test]
fn with_image() {
    let mut counter = IdCounter::new();
    let mut image = empty_snapshot();
    image.name = Some("unique".to_string());

    let application = Application::new(&mut counter).with_image(&image);
    let control_application = Application {
        id: application.id,
        name: Some("unique".to_string()),
        status: Some("Available".to_string()),
        images: Some(vec![image]),
        servers: None,
    };

    assert_eq!(application, control_application);
}

#[test]
fn with_image_unnamed() {
    let mut counter = IdCounter::new();
    let image = empty_snapshot();

    let application = Application::new(&mut counter).with_image(&image);
    let control_application = Application {
        id: application.id,
        name: Some(format!("unnamed {}", application.id)),
        status: Some("Available".to_string()),
        images: Some(vec![image.clone()]),
        servers: None,
    };

    assert_eq!(application, control_application);
}

#[test]
fn with_image_multiple_unamed() {
    let mut counter = IdCounter::new();
    let image = empty_snapshot();
    let application = Application::new(&mut counter).with_image(&image);
    let another_application = Application::new(&mut counter).with_image(&image);
    assert_ne!(application.id, another_application.id);
    assert_ne!(application.name, another_application.name);
}

#[test]
fn with_server() {
    let mut counter = IdCounter::new();
    let mut server = empty_server();
    server.name = "unique".to_string();
    let application = Application::new(&mut counter).with_server(&server);
    let mut control_application = Application::new(&mut counter);
    control_application.id = application.id;
    control_application.name = Some("unique".to_string());
    control_application.status = Some("Running".to_string());
    control_application.servers = Some(vec![server.clone()]);
    assert_eq!(application, control_application);
}

#[test]
fn add_image() {
    let mut counter = IdCounter::new();
    let image = empty_snapshot();
    let mut application = Application::new(&mut counter);

    assert_eq!(application.images, None);
    application.add_image(&image);
    assert_eq!(application.images, Some(vec![image.clone()]));
    application.add_image(&image);
    assert_eq!(application.images, Some(vec![image.clone(), image.clone()]));
}

#[test]
fn generate_application_list() {
    let base_server = empty_server();
    let server1 = Server { name: "Amogus".to_string(), ..base_server.clone() };
    let server2 = Server { name: "In Our Midst".to_string(), ..base_server.clone() };
    let server3 = Server { name: "Amid Us".to_string(), ..base_server.clone() };
    let base_image = empty_snapshot();
    let image1 = Image {
        created_from: Some(CreatedFrom { id: 0, name: "Amogus".to_string() }),
        ..base_image.clone()
    };
    let image2 = Image { name: Some("In Our Group".to_string()), ..base_image.clone() };
    let invalid_image = Image { image_type: ImageType::App, ..base_image.clone() };
    let server_list = vec![server1, server2, server3];
    let image_list = vec![image1, image2, invalid_image];
    let mut counter = IdCounter::new();
    let applications = server_cruncher::application::generate_application_list(
        &mut counter,
        &server_list,
        &image_list,
    );
    assert_eq!(applications.len(), 4);
    let first = applications.get(0).unwrap();
    let last = applications.get(3).unwrap();
    assert_eq!(first.name.clone().unwrap(), "Amogus".to_string());
    assert_eq!(first.images.clone().unwrap().len(), 1);
    assert_eq!(last.name.clone().unwrap(), "In Our Group".to_string());
}

#[test]
fn end_to_end_groups_and_order() {
    let servers = vec![named_server("Amogus"), named_server("In Our Midst"), named_server("Amid Us")];
    let images = vec![
        derived_from("Amogus"),
        Image { name: Some("In Our Group".to_string()), ..empty_snapshot() },
        Image { image_type: ImageType::App, ..empty_snapshot() },
    ];
    let mut counter = IdCounter::starting_at(10);
    let apps = server_cruncher::application::generate_application_list(
        &mut counter,
        &servers,
        &images,
    );
    let names: Vec<Option<String>> = apps.iter().map(|app| app.name.clone()).collect();
    assert_eq!(
        names,
        vec![
            Some("Amogus".to_string()),
            Some("In Our Midst".to_string()),
            Some("Amid Us".to_string()),
            Some("In Our Group".to_string()),
        ]
    );
    let ids: Vec<usize> = apps.iter().map(|app| app.id).collect();
    assert_eq!(ids, vec![10, 11, 12, 13]);
    assert_eq!(get_counter(&counter), 14);
    assert_eq!(apps[0].images, Some(vec![images[0].clone()]));
    assert_eq!(apps[0].servers, Some(vec![servers[0].clone()]));
    assert_eq!(apps[1].images, None);
    assert_eq!(apps[2].images, None);
    assert_eq!(apps[3].servers, None);
    assert_eq!(apps[3].images, Some(vec![images[1].clone()]));
    assert_eq!(apps[3].status, Some("Available".to_string()));
}

#[test]
fn servers_alone_make_one_application_each() {
    let servers = vec![named_server("b"), named_server("a"), named_server("b")];
    let mut counter = IdCounter::new();
    let apps =
        server_cruncher::application::generate_application_list(&mut counter, &servers, &vec![]);
    assert_eq!(apps.len(), 3);
    for (app, server) in apps.iter().zip(servers.iter()) {
        assert_eq!(app.name, Some(server.name.clone()));
        assert_eq!(app.status, Some("Running".to_string()));
        assert_eq!(app.servers, Some(vec![server.clone()]));
        assert_eq!(app.images, None);
    }
}

#[test]
fn nothing_in_nothing_out() {
    let mut counter = IdCounter::new();
    let apps =
        server_cruncher::application::generate_application_list(&mut counter, &vec![], &vec![]);
    assert!(apps.is_empty());
    assert_eq!(get_counter(&counter), 0);
}

#[test]
fn images_that_are_no_snapshots_are_ignored() {
    let servers = vec![named_server("Amogus")];
    let snapshot = derived_from("Amogus");
    let mut noise = Vec::new();
    for image_type in [ImageType::App, ImageType::Backup, ImageType::System, ImageType::Temporary] {
        noise.push(Image { image_type, ..derived_from("Amogus") });
        noise.push(Image { image_type, name: Some("loud".to_string()), ..empty_snapshot() });
    }
    let mut mixed = vec![noise[0].clone(), snapshot.clone()];
    mixed.extend(noise.iter().cloned());

    let mut counter = IdCounter::new();
    let with_noise =
        server_cruncher::application::generate_application_list(&mut counter, &servers, &mixed);
    let mut other_counter = IdCounter::new();
    let without_noise = server_cruncher::application::generate_application_list(
        &mut other_counter,
        &servers,
        &vec![snapshot.clone()],
    );
    assert_eq!(with_noise, without_noise);
    assert_eq!(get_counter(&counter), get_counter(&other_counter));
    assert_eq!(with_noise.len(), 1);
    assert_eq!(with_noise[0].images, Some(vec![snapshot]));
}

#[test]
fn related_snapshot_joins_and_unrelated_one_stands_alone() {
    let servers = vec![named_server("Amogus")];
    let images = vec![derived_from("Amogus"), empty_snapshot(), empty_snapshot()];
    let mut counter = IdCounter::new();
    let apps =
        server_cruncher::application::generate_application_list(&mut counter, &servers, &images);
    assert_eq!(apps.len(), 3);
    assert_eq!(apps[0].name, Some("Amogus".to_string()));
    assert_eq!(apps[0].images.as_ref().unwrap().len(), 1);
    assert_eq!(apps[1].name, Some("unnamed 1".to_string()));
    assert_eq!(apps[2].name, Some("unnamed 2".to_string()));
    assert_ne!(apps[1].name, apps[2].name);
}

#[test]
fn unnamed_images_never_share_a_name() {
    let images: Vec<Image> = (0..25).map(|_| empty_snapshot()).collect();
    let mut counter = IdCounter::starting_at(95);
    let apps =
        server_cruncher::application::generate_application_list(&mut counter, &vec![], &images);
    assert_eq!(apps.len(), 25);
    for i in 0..apps.len() {
        assert_eq!(apps[i].name, Some(format!("unnamed {}", 95 + i)));
        for j in 0..i {
            assert_ne!(apps[i].name, apps[j].name);
            assert_ne!(apps[i].id, apps[j].id);
        }
    }
}

#[test]
fn ids_go_on_across_calls() {
    let mut counter = IdCounter::new();
    let first = server_cruncher::application::generate_application_list(
        &mut counter,
        &vec![],
        &vec![empty_snapshot()],
    );
    let second = server_cruncher::application::generate_application_list(
        &mut counter,
        &vec![],
        &vec![empty_snapshot()],
    );
    assert_eq!(first[0].name, Some("unnamed 0".to_string()));
    assert_eq!(second[0].name, Some("unnamed 1".to_string()));
}

#[test]
fn snapshot_of_a_missing_server_is_kept() {
    let servers = vec![named_server("Amogus")];
    let images = vec![
        derived_from("Gone"),
        Image { name: Some("kept".to_string()), ..derived_from("Gone") },
    ];
    let mut counter = IdCounter::new();
    let apps =
        server_cruncher::application::generate_application_list(&mut counter, &servers, &images);
    assert_eq!(apps.len(), 3);
    assert_eq!(apps[0].images, None);
    assert_eq!(apps[1].name, Some("unnamed 1".to_string()));
    assert_eq!(apps[1].images, Some(vec![images[0].clone()]));
    assert_eq!(apps[2].name, Some("kept".to_string()));
    assert_eq!(apps[2].images, Some(vec![images[1].clone()]));
}

#[test]
fn first_application_of_a_name_wins() {
    let servers = vec![named_server("twin"), named_server("other"), named_server("twin")];
    let images = vec![derived_from("twin"), derived_from("twin")];
    let mut counter = IdCounter::new();
    let apps =
        server_cruncher::application::generate_application_list(&mut counter, &servers, &images);
    assert_eq!(apps.len(), 3);
    assert_eq!(apps[0].images.as_ref().unwrap().len(), 2);
    assert_eq!(apps[1].images, None);
    assert_eq!(apps[2].images, None);
}

#[test]
fn later_snapshot_joins_an_application_made_by_an_image() {
    let founder = Image { name: Some("base".to_string()), ..empty_snapshot() };
    let follower = derived_from("base");
    let early = derived_from("late");
    let late = Image { name: Some("late".to_string()), ..empty_snapshot() };
    let images = vec![founder.clone(), follower.clone(), early.clone(), late.clone()];
    let mut counter = IdCounter::new();
    let apps =
        server_cruncher::application::generate_application_list(&mut counter, &vec![], &images);
    assert_eq!(apps.len(), 3);
    assert_eq!(apps[0].name, Some("base".to_string()));
    assert_eq!(apps[0].images, Some(vec![founder, follower]));
    assert_eq!(apps[1].name, Some("unnamed 1".to_string()));
    assert_eq!(apps[1].images, Some(vec![early]));
    assert_eq!(apps[2].name, Some("late".to_string()));
    assert_eq!(apps[2].images, Some(vec![late]));
}

#[test]
fn snapshot_named_like_a_made_up_name_joins_it() {
    let images = vec![empty_snapshot(), derived_from("unnamed 0")];
    let mut counter = IdCounter::new();
    let apps =
        server_cruncher::application::generate_application_list(&mut counter, &vec![], &images);
    assert_eq!(apps.len(), 1);
    assert_eq!(apps[0].images.as_ref().unwrap().len(), 2);
}

#[test]
fn every_application_has_a_name_and_a_status() {
    let servers = vec![named_server(""), named_server("x")];
    let images = vec![
        empty_snapshot(),
        derived_from(""),
        Image { status: ImageStatus::Creating, ..empty_snapshot() },
        Image { status: ImageStatus::Unavailable, name: Some("n".to_string()), ..empty_snapshot() },
    ];
    let mut counter = IdCounter::new();
    let apps =
        server_cruncher::application::generate_application_list(&mut counter, &servers, &images);
    assert_eq!(apps.len(), 5);
    for app in &apps {
        assert!(app.name.is_some());
        assert!(app.status.is_some());
    }
    assert_eq!(apps[0].images.as_ref().unwrap().len(), 1);
    assert_eq!(apps[3].status, Some("Creating".to_string()));
    assert_eq!(apps[4].status, Some("Unavailable".to_string()));
}

#[test]
fn status_names() {
    let statuses = [
        (ServerStatus::Deleting, "Deleting"),
        (ServerStatus::Initializing, "Initializing"),
        (ServerStatus::Migrating, "Migrating"),
        (ServerStatus::Off, "Off"),
        (ServerStatus::Rebuilding, "Rebuilding"),
        (ServerStatus::Running, "Running"),
        (ServerStatus::Starting, "Starting"),
        (ServerStatus::Stopping, "Stopping"),
        (ServerStatus::Unknown, "Unknown"),
    ];
    for (status, name) in statuses {
        assert_eq!(status.to_string(), name);
        assert_eq!(format!("{:?}", status), name);
    }
    assert_eq!(ImageStatus::Available.to_string(), "Available");
    assert_eq!(ImageStatus::Creating.to_string(), "Creating");
    assert_eq!(ImageStatus::Unavailable.to_string(), "Unavailable");
}

#[test]
fn counter_hands_out_ids_in_turn() {
    let mut counter = IdCounter::new();
    assert_eq!(get_counter(&counter), 0);
    assert_eq!(get_id(&mut counter), 0);
    assert_eq!(get_id(&mut counter), 1);
    bump_counter(&mut counter);
    assert_eq!(get_counter(&counter), 3);
    assert_eq!(get_id(&mut counter), 3);
}

#[test]
fn counter_starts_over_after_the_largest_id() {
    let mut counter = IdCounter::starting_at(usize::MAX);
    assert_eq!(get_id(&mut counter), usize::MAX);
    assert_eq!(get_counter(&counter), 0);
    let mut counter = IdCounter::starting_at(usize::MAX - 1);
    let apps = server_cruncher::application::generate_application_list(
        &mut counter,
        &vec![],
        &vec![empty_snapshot(), empty_snapshot(), empty_snapshot()],
    );
    let ids: Vec<usize> = apps.iter().map(|app| app.id).collect();
    assert_eq!(ids, vec![usize::MAX - 1, usize::MAX, 0]);
    assert_eq!(apps[2].name, Some("unnamed 0".to_string()));
    assert_eq!(get_counter(&counter), 1);
}

#[test]
fn clone_of_an_application_is_equal() {
    let mut counter = IdCounter::new();
    let mut app = Application::new(&mut counter).with_server(&named_server("s"));
    app.add_image(&derived_from("s"));
    assert_eq!(app.clone(), app);
}

#[test]
fn every_snapshot_is_held_once() {
    let servers = vec![named_server("a"), named_server("b"), named_server("a")];
    let mut images = Vec::new();
    for (i, source) in ["a", "b", "c", "a", "unnamed 4", "b"].iter().enumerate() {
        images.push(Image { id: i as i64, ..derived_from(source) });
        images.push(Image { id: 100 + i as i64, image_type: ImageType::Backup, ..derived_from(source) });
        images.push(Image { id: 200 + i as i64, ..empty_snapshot() });
    }
    let mut counter = IdCounter::new();
    let apps =
        server_cruncher::application::generate_application_list(&mut counter, &servers, &images);
    let mut held: Vec<i64> = apps
        .iter()
        .flat_map(|app| app.images.iter().flatten().map(|image| image.id))
        .collect();
    held.sort();
    let mut snapshots: Vec<i64> = images
        .iter()
        .filter(|image| image.image_type == ImageType::Snapshot)
        .map(|image| image.id)
        .collect();
    snapshots.sort();
    assert_eq!(held, snapshots);
    assert_eq!(held.len(), 12);
    for app in &apps[3..] {
        assert_eq!(app.servers, None);
        assert!(!app.images.as_ref().unwrap().is_empty());
    }
}

fn plain_walk(start: usize, servers: &[Server], images: &[Image]) -> Vec<Application> {
    let mut next = start;
    let mut apps = Vec::new();
    for server in servers {
        apps.push(Application {
            id: next,
            name: Some(server.name.clone()),
            status: Some(format!("{:?}", server.status)),
            images: None,
            servers: Some(vec![server.clone()]),
        });
        next += 1;
    }
    for image in images {
        if image.image_type != ImageType::Snapshot {
            continue;
        }
        let home = apps.iter_mut().find(|app| match (&image.created_from, &app.name) {
            (Some(source), Some(name)) => &source.name == name,
            _ => false,
        });
        match home {
            Some(app) => app.images.get_or_insert_with(Vec::new).push(image.clone()),
            None => {
                apps.push(Application {
                    id: next,
                    name: Some(image.name.clone().unwrap_or(format!("unnamed {}", next))),
                    status: Some(format!("{:?}", image.status)),
                    images: Some(vec![image.clone()]),
                    servers: None,
                });
                next += 1;
            }
        }
    }
    apps
}

#[test]
fn generated_lists_match_a_plain_walk() {
    let names = ["a", "b", "c", "unnamed 0", "unnamed 3", "unnamed 7", ""];
    let types = [ImageType::Snapshot, ImageType::Snapshot, ImageType::Snapshot, ImageType::App, ImageType::System];
    let statuses = [ImageStatus::Available, ImageStatus::Creating, ImageStatus::Unavailable];
    let mut state: u64 = 0x2545_f491_4f6c_dd1d;
    let mut draw = move |bound: usize| {
        state ^= state << 13;
        state ^= state >> 7;
        state ^= state << 17;
        (state % bound as u64) as usize
    };
    for round in 0..300 {
        let servers: Vec<Server> = (0..draw(5))
            .map(|i| Server {
                id: i as i64,
                status: if i % 2 == 0 { ServerStatus::Running } else { ServerStatus::Off },
                ..named_server(names[draw(names.len())])
            })
            .collect();
        let images: Vec<Image> = (0..draw(9))
            .map(|i| Image {
                id: i as i64,
                name: if draw(3) == 0 { Some(names[draw(names.len())].to_string()) } else { None },
                description: String::new(),
                image_type: types[draw(types.len())],
                status: statuses[draw(statuses.len())],
                created_from: if draw(2) == 0 {
                    Some(CreatedFrom { id: 0, name: names[draw(names.len())].to_string() })
                } else {
                    None
                },
                bound_to: None,
            })
            .collect();
        let start = draw(10);
        let mut counter = IdCounter::starting_at(start);
        let apps = server_cruncher::application::generate_application_list(
            &mut counter,
            &servers,
            &images,
        );
        let expected = plain_walk(start, &servers, &images);
        assert_eq!(apps, expected, "round {}", round);
        assert_eq!(get_counter(&counter), start + expected.len());
    }
}
