use workout_bot::handler::Handler;
use workout_bot::handler::HandlerDispatcher;
use workout_bot::model::State;
use workout_bot::model::UserContext;

fn turn(ctx: UserContext, text: &str) -> (String, UserContext) {
    let dispatcher = HandlerDispatcher::new();
    dispatcher.handle(text.to_string(), ctx)
}

#[test]
fn help_on_first_turn_keeps_ready_to_start() {
    let ctx = UserContext::new(1);
    let (reply, next) = turn(ctx, "/HELP");
    assert_eq!(reply, "Выбери /START для начала тренировки");
    assert_eq!(next.user_state, State::ReadyToStart);
    assert_eq!(next.training.get_exersises().len(), 0);
}

#[test]
fn start_moves_to_choose_training_and_lists_activities() {
    let ctx = UserContext::new(1);
    let (reply, next) = turn(ctx, "/START");
    assert_eq!(reply, "Выбери тренировку: /RUN, /CYCLING");
    assert_eq!(next.user_state, State::ChooseTraining);
}

#[test]
fn unrecognized_text_keeps_choose_training() {
    let ctx = UserContext::new(1);
    let (_, ctx) = turn(ctx, "/START");
    let (reply, next) = turn(ctx, "/SWIM");
    assert_eq!(next.user_state, State::ChooseTraining);
    assert_eq!(
        reply,
        "Неизвестная команда: /SWIM, введите /HELP для получения помощи"
    );
    assert_eq!(next.training.get_exersises().len(), 0);
}

#[test]
fn activity_keyword_creates_one_record_and_starts_tracking() {
    let ctx = UserContext::new(1);
    let (_, ctx) = turn(ctx, "/START");
    let (reply, next) = turn(ctx, "/RUN");
    assert_eq!(reply, "Нажмите /STOP для завершения");
    assert_eq!(next.user_state, State::TrainingInProgres);
    assert_eq!(next.training.get_exersises().len(), 1);
}

#[test]
fn second_activity_keyword_is_rejected_not_appended() {
    let ctx = UserContext::new(1);
    let (_, ctx) = turn(ctx, "/START");
    let (_, ctx) = turn(ctx, "/RUN");
    let (reply, next) = turn(ctx, "/CYCLING");
    assert_eq!(next.user_state, State::TrainingInProgres);
    assert_eq!(next.training.get_exersises().len(), 1);
    assert_eq!(
        reply,
        "Неизвестная команда: /CYCLING, введите /HELP для получения помощи"
    );
}

#[test]
fn cycling_is_recognized_too() {
    let ctx = UserContext::new(1);
    let (_, ctx) = turn(ctx, "/START");
    let (reply, next) = turn(ctx, "/CYCLING");
    assert_eq!(reply, "Нажмите /STOP для завершения");
    assert_eq!(next.user_state, State::TrainingInProgres);
}

#[test]
fn stop_asks_for_distance() {
    let ctx = UserContext::new(1);
    let (_, ctx) = turn(ctx, "/START");
    let (_, ctx) = turn(ctx, "/RUN");
    let (reply, next) = turn(ctx, "/STOP");
    assert_eq!(reply, "Введите пройденную дистанцию");
    assert_eq!(next.user_state, State::SelectDistance);
}

#[test]
fn stop_outside_tracking_falls_through_to_unknown() {
    let ctx = UserContext::new(1);
    let (reply, next) = turn(ctx, "/STOP");
    assert_eq!(next.user_state, State::ReadyToStart);
    assert_eq!(
        reply,
        "Неизвестная команда: /STOP, введите /HELP для получения помощи"
    );
}

#[test]
fn activity_keyword_outside_choosing_falls_through_to_unknown() {
    let ctx = UserContext::new(1);
    let (reply, next) = turn(ctx, "/RUN");
    assert_eq!(next.user_state, State::ReadyToStart);
    assert_eq!(
        reply,
        "Неизвестная команда: /RUN, введите /HELP для получения помощи"
    );
}

#[test]
fn valid_distance_finishes_and_reports() {
    let ctx = UserContext::new(1);
    let (_, ctx) = turn(ctx, "/START");
    let (_, ctx) = turn(ctx, "/RUN");
    let (_, ctx) = turn(ctx, "/STOP");
    let (reply, next) = turn(ctx, "10");
    assert_eq!(next.user_state, State::Finished);
    let exersises = next.training.get_exersises();
    assert_eq!(exersises.len(), 1);
    assert_eq!(exersises[0].distance, 10);
    assert_eq!(
        reply,
        format!(
            "Тренировка завершена\\. Пройденная дистанция: 10, время: {}",
            exersises[0].training_time
        )
    );
}

#[test]
fn distance_with_leading_zeroes_reports_numeric_value() {
    let ctx = UserContext::new(1);
    let (_, ctx) = turn(ctx, "/START");
    let (_, ctx) = turn(ctx, "/RUN");
    let (_, ctx) = turn(ctx, "/STOP");
    let (reply, next) = turn(ctx, "007");
    assert_eq!(next.user_state, State::Finished);
    assert_eq!(next.training.get_exersises()[0].distance, 7);
    assert!(reply.starts_with("Тренировка завершена\\. Пройденная дистанция: 7, время: "));
}

#[test]
fn negative_distance_is_rejected_and_echoed() {
    let ctx = UserContext::new(1);
    let (_, ctx) = turn(ctx, "/START");
    let (_, ctx) = turn(ctx, "/RUN");
    let (_, ctx) = turn(ctx, "/STOP");
    let (reply, next) = turn(ctx, "-5");
    assert_eq!(next.user_state, State::SelectDistance);
    assert_eq!(
        reply,
        "Дистанция должна быть положительным числом\\. Вы ввели: -5"
    );
}

#[test]
fn non_numeric_distance_is_rejected_and_echoed() {
    let ctx = UserContext::new(1);
    let (_, ctx) = turn(ctx, "/START");
    let (_, ctx) = turn(ctx, "/RUN");
    let (_, ctx) = turn(ctx, "/STOP");
    let (reply, next) = turn(ctx, "abc");
    assert_eq!(next.user_state, State::SelectDistance);
    assert_eq!(
        reply,
        "Дистанция должна быть положительным числом\\. Вы ввели: abc"
    );
    let (reply, next) = turn(next, "12");
    assert_eq!(next.user_state, State::Finished);
    assert!(reply.starts_with("Тренировка завершена\\. Пройденная дистанция: 12, время: "));
}

#[test]
fn non_ascii_distance_is_echoed_unchanged() {
    let ctx = UserContext::new(1);
    let (_, ctx) = turn(ctx, "/START");
    let (_, ctx) = turn(ctx, "/RUN");
    let (_, ctx) = turn(ctx, "/STOP");
    let (reply, next) = turn(ctx, "десять км");
    assert_eq!(next.user_state, State::SelectDistance);
    assert_eq!(
        reply,
        "Дистанция должна быть положительным числом\\. Вы ввели: десять км"
    );
}

#[test]
fn help_works_in_every_state() {
    let ctx = UserContext::new(1);
    let (reply, ctx) = turn(ctx, "/HELP");
    assert_eq!(reply, "Выбери /START для начала тренировки");
    let (_, ctx) = turn(ctx, "/START");
    let (reply, ctx) = turn(ctx, "/HELP");
    assert_eq!(reply, "Выбери /START для начала тренировки");
    assert_eq!(ctx.user_state, State::ChooseTraining);
    let (_, ctx) = turn(ctx, "/RUN");
    let (reply, ctx) = turn(ctx, "/HELP");
    assert_eq!(reply, "Выбери /START для начала тренировки");
    assert_eq!(ctx.user_state, State::TrainingInProgres);
    let (_, ctx) = turn(ctx, "/STOP");
    let (reply, ctx) = turn(ctx, "/HELP");
    assert_eq!(reply, "Выбери /START для начала тренировки");
    assert_eq!(ctx.user_state, State::SelectDistance);
}
