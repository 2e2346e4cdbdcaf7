//! Exact output of the string builders: serialized records, store keys,
//! bulk insert statements, select statements and the connection string.

use transactions_pipeline::batch::{insert_query, key_string, serialize_transaction};
use transactions_pipeline::config::{DatabaseSettings, Settings};
use transactions_pipeline::connection::CouchbaseConnection;
use transactions_pipeline::messages::BatchMessage;
use transactions_pipeline::model::{Transaction, TransactionType};
use transactions_pipeline::producer::{event_record, generate_transaction};
use transactions_pipeline::queries::{collect_rows, select_all_query, select_by_type_query};
use transactions_pipeline::textfmt::u64_to_string;

fn settings() -> Settings {
    Settings {
        database: DatabaseSettings {
            username: "user".to_string(),
            password: "pass".to_string(),
            port: 8091,
            host: "127.0.0.1".to_string(),
            bucket_name: "transactions".to_string(),
            scope_name: "transactions".to_string(),
            collection_name: "bet".to_string(),
            test_bucket_name: "test".to_string(),
            test_scope_name: "test".to_string(),
            test_collection_name: "test".to_string(),
        },
        application_port: 8000,
    }
}

#[test]
fn category_names() {
    assert_eq!(TransactionType::Bet.name(), "bet");
    assert_eq!(TransactionType::Trade.name(), "trade");
    assert_eq!(TransactionType::Deposit.name(), "deposit");
    assert_eq!(TransactionType::Withdrawal.name(), "withdrawal");
}

#[test]
fn decimal_strings() {
    assert_eq!(u64_to_string(0), "0");
    assert_eq!(u64_to_string(7), "7");
    assert_eq!(u64_to_string(10), "10");
    assert_eq!(u64_to_string(409), "409");
    assert_eq!(u64_to_string(u64::MAX), "18446744073709551615");
}

#[test]
fn serialized_record_is_exact() {
    let t = Transaction {
        id: 42,
        user_id: 7,
        amount: 350,
        transaction_type: TransactionType::Deposit,
    };
    assert_eq!(
        serialize_transaction(&t),
        "{\"id\":42,\"user_id\":7,\"amount\":350,\"transaction_type\":\"deposit\"}"
    );
    assert_eq!(key_string(&t), "\"42\"");
}

#[test]
fn serialized_record_parses_back() {
    let t = Transaction { id: 9, user_id: 12, amount: 1, transaction_type: TransactionType::Bet };
    let parsed: serde_json::Value = serde_json::from_str(&serialize_transaction(&t)).unwrap();
    assert_eq!(parsed["id"], serde_json::Value::from(9u64));
    assert_eq!(parsed["user_id"], serde_json::Value::from(12u64));
    assert_eq!(parsed["amount"], serde_json::Value::from(1u64));
    assert_eq!(parsed["transaction_type"], serde_json::Value::from("bet"));
}

#[test]
fn insert_statement_is_exact() {
    let batch = BatchMessage {
        data_type: TransactionType::Trade,
        batch_data: vec![
            Transaction { id: 1, user_id: 2, amount: 30, transaction_type: TransactionType::Trade },
            Transaction { id: 4, user_id: 5, amount: 60, transaction_type: TransactionType::Trade },
        ],
    };
    assert_eq!(
        insert_query(&batch),
        "INSERT INTO `transactions`.`transactions`.`trade` (KEY, VALUE) VALUES \
         (\"1\", {\"id\":1,\"user_id\":2,\"amount\":30,\"transaction_type\":\"trade\"}), \
         (\"4\", {\"id\":4,\"user_id\":5,\"amount\":60,\"transaction_type\":\"trade\"})"
    );
}

#[test]
fn insert_statement_for_empty_batch_has_no_values() {
    let batch = BatchMessage { data_type: TransactionType::Bet, batch_data: vec![] };
    assert_eq!(
        insert_query(&batch),
        "INSERT INTO `transactions`.`transactions`.`bet` (KEY, VALUE) VALUES "
    );
}

#[test]
fn select_statements_are_exact() {
    assert_eq!(
        select_by_type_query("transactions", "transactions", "withdrawal"),
        "SELECT * FROM `transactions`.`transactions`.`withdrawal`"
    );
    assert_eq!(
        select_all_query("b", "s"),
        "SELECT * FROM `b`.`s`.`bet` UNION ALL \
         SELECT * FROM `b`.`s`.`trade` UNION ALL \
         SELECT * FROM `b`.`s`.`deposit` UNION ALL \
         SELECT * FROM `b`.`s`.`withdrawal`"
    );
}

#[test]
fn connection_string_is_exact() {
    let s = settings();
    assert_eq!(s.database.connection_string(), "couchbase://127.0.0.1:8091");
}

#[test]
fn connection_selects_destination() {
    let s = settings();
    let regular = CouchbaseConnection::new(&s);
    assert_eq!(regular.bucket_name, "transactions");
    assert_eq!(regular.scope_name, "transactions");
    assert_eq!(regular.collection_name, "bet");
    let testing = CouchbaseConnection::test_connection(&s);
    assert_eq!(testing.bucket_name, "test");
    assert_eq!(testing.scope_name, "test");
    assert_eq!(testing.collection_name, "test");
}

#[test]
fn rows_flatten_in_order() {
    let a = Transaction { id: 1, user_id: 1, amount: 1, transaction_type: TransactionType::Bet };
    let b = Transaction { id: 2, user_id: 2, amount: 2, transaction_type: TransactionType::Bet };
    let c = Transaction { id: 3, user_id: 3, amount: 3, transaction_type: TransactionType::Trade };
    let rows = vec![vec![a, b], vec![], vec![c]];
    let flat = collect_rows(&rows);
    assert_eq!(flat.len(), 3);
    assert_eq!(flat[0].id, 1);
    assert_eq!(flat[1].id, 2);
    assert_eq!(flat[2].id, 3);
}

#[test]
fn generated_transactions_stay_in_range() {
    for _ in 0..64 {
        let t = generate_transaction();
        assert!((1..1000000000).contains(&t.id));
        assert!((1..1000000000).contains(&t.user_id));
        assert!((1..1000).contains(&t.amount));
        let (key, payload) = event_record(&t);
        assert_eq!(key, u64_to_string(t.id));
        assert_eq!(payload, serialize_transaction(&t));
    }
}
